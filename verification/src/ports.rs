//! Choosing the input port to listen on, by a fragment of its name.
use crate::text::{chars_of, contains, occurs_in};
use vstd::prelude::*;

verus! {

/// The names that `ports` holds, as sequences of characters.
pub open spec fn port_names(ports: Seq<String>) -> Seq<Seq<char>> {
    ports.map_values(|port: String| port@)
}

/// Whether `index` is the first port whose name contains `wanted`.
pub open spec fn is_first_match(names: Seq<Seq<char>>, wanted: Seq<char>, index: int) -> bool {
    &&& 0 <= index < names.len()
    &&& occurs_in(wanted, names[index])
    &&& forall|k: int| 0 <= k < index ==> !occurs_in(wanted, #[trigger] names[k])
}

/// Whether no port has a name that contains `wanted`.
pub open spec fn no_match(names: Seq<Seq<char>>, wanted: Seq<char>) -> bool {
    forall|k: int| 0 <= k < names.len() ==> !occurs_in(wanted, #[trigger] names[k])
}

/// No port was found whose name contains the wanted fragment.
#[derive(Clone, Debug, PartialEq, Eq)]
pub struct PortNotFound {
    /// The fragment that was looked for.
    pub wanted: String,
}

impl PortNotFound {
    /// The error in words, with the wanted fragment in double quotes.
    pub fn message(&self) -> (r: String)
        ensures
            r@ == "Could not find midi device with matching port name matching \""@ + self.wanted@
                + "\""@,
    {
        String::from_str("Could not find midi device with matching port name matching \"").concat(
            self.wanted.as_str(),
        ).concat("\"")
    }
}

/// The index of the first port whose name contains `wanted`, if there is one.
pub fn select_port(ports: &Vec<String>, wanted: &str) -> (r: Option<usize>)
    ensures
        match r {
            Some(index) => is_first_match(port_names(ports@), wanted@, index as int),
            None => no_match(port_names(ports@), wanted@),
        },
{
    let needle = chars_of(wanted);
    let mut i: usize = 0;
    while i < ports.len()
        invariant
            i <= ports@.len(),
            needle@ == wanted@,
            forall|k: int| 0 <= k < i ==> !occurs_in(wanted@, #[trigger] port_names(ports@)[k]),
        decreases ports@.len() - i,
    {
        let name = chars_of(ports[i].as_str());
        if contains(&name, &needle) {
            return Some(i);
        }
        i += 1;
    }
    None
}

} // verus!
