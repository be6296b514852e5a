use vstd::prelude::*;
use vstd::string::StringExecFns;

verus! {

/// Prints the environments of the native and pyenv backends.
#[derive(Debug, Clone, Copy, PartialEq, Eq)]
pub struct ListCommand {}

/// One line per name, each indented by a tab.
pub open spec fn venv_lines(names: Seq<String>) -> Seq<char>
    decreases names.len(),
{
    if names.len() == 0 {
        Seq::empty()
    } else {
        venv_lines(names.drop_last()) + "\t"@ + names.last()@ + "\n"@
    }
}

/// A heading followed by the names, or nothing where there are none.
pub open spec fn section(heading: Seq<char>, names: Seq<String>) -> Seq<char> {
    if names.len() == 0 {
        Seq::empty()
    } else {
        heading + venv_lines(names)
    }
}

pub fn print_venvs(names: &Vec<String>) -> (r: String)
    ensures
        r@ == venv_lines(names@),
{
    let mut out = String::new();
    let mut i: usize = 0;
    while i < names.len()
        invariant
            i <= names.len(),
            out@ == venv_lines(names@.subrange(0, i as int)),
        decreases names.len() - i,
    {
        assert(names@.subrange(0, i + 1).drop_last() =~= names@.subrange(0, i as int));
        out = out.concat("\t").concat(names[i].as_str()).concat("\n");
        i = i + 1;
    }
    assert(names@.subrange(0, names@.len() as int) =~= names@);
    out
}

impl ListCommand {
    /// The listing of `rsenv` (the native environments) and `pyenv`.
    pub fn execute(&self, rsenv: &Vec<String>, pyenv: &Vec<String>) -> (r: String)
        ensures
            r@ == section("Rsenv environments:\n"@, rsenv@) + section(
                "Pyenv environments:\n"@,
                pyenv@,
            ),
    {
        let mut out = String::new();
        if rsenv.len() > 0 {
            out = out.concat("Rsenv environments:\n").concat(print_venvs(rsenv).as_str());
        }
        if pyenv.len() > 0 {
            out = out.concat("Pyenv environments:\n").concat(print_venvs(pyenv).as_str());
        }
        out
    }
}

} // verus!
