//! The machine architecture that an object file was built for.
//!
//! The header stores the architecture as a number. Which name belongs to
//! which number is not part of the file format: the caller hands in the table
//! of names, and a number that the table lacks is shown as a number.

use crate::numeral::{code_label, code_label_string};
use vstd::prelude::*;

verus! {

/// The raw code of a machine architecture, as the header stores it.
#[derive(Debug, Copy, Clone, PartialEq, Eq, Structural)]
pub struct EMachine(pub u16);

/// One line of a table of architecture names.
#[derive(Debug, Clone, PartialEq, Eq)]
pub struct MachineName {
    /// The code of the architecture.
    pub code: u16,
    /// The name under which the architecture is shown.
    pub name: String,
}

/// The name that `table` gives to `code`: that of the first line with this
/// code, if there is one.
pub open spec fn machine_name(table: Seq<MachineName>, code: u16) -> Option<Seq<char>>
    decreases table.len(),
{
    if table.len() == 0 {
        None
    } else if table[0].code == code {
        Some(table[0].name@)
    } else {
        machine_name(table.subrange(1, table.len() as int), code)
    }
}

/// The text that stands for the architecture `code`: its name in `table`,
/// or, where the table has none, `<unknown>` with the code.
pub open spec fn machine_label(table: Seq<MachineName>, code: u16) -> Seq<char> {
    match machine_name(table, code) {
        Some(name) => name,
        None => code_label("<unknown>"@, code),
    }
}

impl Default for EMachine {
    fn default() -> (r: EMachine)
        ensures
            r == EMachine(0),
    {
        EMachine(0)
    }
}

impl EMachine {
    /// The text that stands for this architecture. An architecture that
    /// `table` does not know is no error: it is shown by its code.
    pub fn label(&self, table: &[MachineName]) -> (r: String)
        ensures
            r@ == machine_label(table@, self.0),
    {
        let code = self.0;
        let mut i: usize = 0;
        proof {
            assert(table@.subrange(0, table.len() as int) =~= table@);
        }
        while i < table.len()
            invariant
                i <= table.len(),
                code == self.0,
                machine_name(table@, code) == machine_name(
                    table@.subrange(i as int, table.len() as int),
                    code,
                ),
            decreases table.len() - i,
        {
            let ghost rest = table@.subrange(i as int, table.len() as int);
            assert(rest[0] == table@[i as int]);
            if table[i].code == code {
                return table[i].name.clone();
            }
            proof {
                assert(rest.subrange(1, rest.len() as int) =~= table@.subrange(
                    i + 1,
                    table.len() as int,
                ));
            }
            i = i + 1;
        }
        code_label_string("<unknown>", code)
    }
}

} // verus!
