use vstd::prelude::*;

use crate::entries::{find_last, last_map};
use crate::host::WhoIsHost;
use crate::text::chars_of;

verus! {

/// A value of a directory source, as a JSON reader delivers it. Each string
/// comes with what a host parser made of it: `host` is `None` where the text
/// is not a well-formed host. An object's entries count as in `last_map`.
#[derive(Debug)]
pub enum ConfigValue {
    Null,
    Bool(bool),
    Str { text: String, host: Option<WhoIsHost> },
    Object(Vec<(String, ConfigValue)>),
    Other,
}

/// The value of `key` in the object `entries`: that of its last entry.
pub fn object_get<'a>(entries: &'a Vec<(String, ConfigValue)>, key: &str) -> (r: Option<
    &'a ConfigValue,
>)
    ensures
        r is Some == last_map(entries@).contains_key(key@),
        r matches Some(v) ==> *v == last_map(entries@)[key@],
{
    let k = chars_of(key);
    match find_last(entries, &k) {
        Some(i) => Some(&entries[i].1),
        None => None,
    }
}

} // verus!
