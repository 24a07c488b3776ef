//! Guild emojis, looked up by name.
use crate::text::text_eq;
use vstd::prelude::*;

verus! {

/// A custom emoji of a guild.
pub struct GuildEmoji {
    pub id: u64,
    pub name: String,
    pub animated: bool,
}

/// The emoji at `i` is the first named `name`.
pub open spec fn first_emoji_named(emojis: Seq<GuildEmoji>, name: Seq<char>, i: int) -> bool {
    &&& 0 <= i < emojis.len()
    &&& emojis[i].name@ == name
    &&& forall|j: int| 0 <= j < i ==> (#[trigger] emojis[j]).name@ != name
}

/// The index of the first emoji named exactly `name`.
pub fn find_emoji(emojis: &Vec<GuildEmoji>, name: &str) -> (r: Option<usize>)
    ensures
        r is None <==> forall|j: int| 0 <= j < emojis@.len() ==> (#[trigger] emojis@[j]).name@ != name@,
        r matches Some(i) ==> first_emoji_named(emojis@, name@, i as int),
{
    let mut i: usize = 0;
    while i < emojis.len()
        invariant
            i <= emojis@.len(),
            forall|j: int| 0 <= j < i ==> (#[trigger] emojis@[j]).name@ != name@,
        decreases emojis@.len() - i,
    {
        if text_eq(emojis[i].name.as_str(), name) {
            return Some(i);
        }
        i = i + 1;
    }
    None
}

} // verus!
