use vstd::prelude::*;
use vstd::string::StrSliceExecFns;

use crate::errors::VirtualEnvError;
use crate::shell::SupportedShell;

verus! {

/// Adds the line that loads the hook to the shell's startup file.
#[derive(Debug, Clone, Copy, PartialEq, Eq)]
pub struct Command {}

/// `substr` stands in `content` within one line.
pub open spec fn occurs_in_line(content: Seq<char>, substr: Seq<char>) -> bool {
    &&& !substr.contains('\n')
    &&& exists|i: int|
        0 <= i && i + substr.len() <= content.len() && #[trigger] content.subrange(
            i,
            i + substr.len(),
        ) == substr
}

pub fn find_occurence(content: &str, substr: &str) -> (r: bool)
    ensures
        r == occurs_in_line(content@, substr@),
{
    let n = substr.unicode_len();
    let len = content.unicode_len();
    let mut k: usize = 0;
    while k < n
        invariant
            k <= n,
            n == substr@.len(),
            forall|j: int| 0 <= j < k ==> substr@[j] != '\n',
        decreases n - k,
    {
        if substr.get_char(k) == '\n' {
            return false;
        }
        k = k + 1;
    }
    if n > len {
        return false;
    }
    if n == 0 {
        assert(content@.subrange(0, 0) =~= substr@);
        assert(content@.subrange(0, 0 + substr@.len() as int) == substr@);
        assert(!substr@.contains('\n'));
        return true;
    }
    let wanted = substr.to_owned();
    let mut i: usize = 0;
    while i <= len - n
        invariant
            n == substr@.len(),
            len == content@.len(),
            0 < n <= len,
            i <= len - n + 1,
            wanted@ == substr@,
            !substr@.contains('\n'),
            forall|j: int| 0 <= j < i ==> #[trigger] content@.subrange(j, j + n) != substr@,
        decreases len - n + 1 - i,
    {
        if content.substring_char(i, i + n).to_owned() == wanted {
            return true;
        }
        i = i + 1;
    }
    proof {
        assert forall|j: int| 0 <= j && j + n <= len implies #[trigger] content@.subrange(j, j + n)
            != substr@ by {
            assert(j < i);
        }
    }
    false
}

impl Command {
    /// The line to append to the startup file whose text is `config`; an
    /// error where a line of it already holds that line.
    pub fn execute(&self, shell: SupportedShell, config: &str) -> (r: Result<
        &'static str,
        VirtualEnvError,
    >)
        ensures
            occurs_in_line(config@, shell.init_command_spec()@) ==> r == Err::<
                &'static str,
                VirtualEnvError,
            >(VirtualEnvError::AlreadyInstalled),
            !occurs_in_line(config@, shell.init_command_spec()@) ==> r == Ok::<
                &'static str,
                VirtualEnvError,
            >(shell.init_command_spec()),
    {
        let init_line = shell.get_init_command();
        if find_occurence(config, init_line) {
            return Err(VirtualEnvError::AlreadyInstalled);
        }
        Ok(init_line)
    }
}

} // verus!
