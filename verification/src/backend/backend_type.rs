//! Selection of an execution backend by name.

use vstd::prelude::*;
use vstd::string::StrSliceExecFns;

verus! {

/// The available ways to execute a parsed program: the native-code backend,
/// or the tree-walking interpreter (no backend).
#[derive(Debug, PartialEq, Eq, Structural, Clone, Copy)]
pub enum BackendType {
    LLVM,
    Interpreter,
}

/// Case-insensitive equality of one character with a letter.
pub open spec fn is_ci(c: char, lo: char, up: char) -> bool {
    c == lo || c == up
}

/// The backend a name selects: `none` for the interpreter, `llvm` for the
/// native-code backend, ASCII case-insensitive.
pub open spec fn spec_backend_of(s: Seq<char>) -> Option<BackendType> {
    if s.len() == 4 && is_ci(s[0], 'n', 'N') && is_ci(s[1], 'o', 'O') && is_ci(s[2], 'n', 'N')
        && is_ci(s[3], 'e', 'E') {
        Some(BackendType::Interpreter)
    } else if s.len() == 4 && is_ci(s[0], 'l', 'L') && is_ci(s[1], 'l', 'L') && is_ci(
        s[2],
        'v',
        'V',
    ) && is_ci(s[3], 'm', 'M') {
        Some(BackendType::LLVM)
    } else {
        None
    }
}

impl BackendType {
    /// The backend a name selects, if any.
    pub fn from_name(name: &str) -> (r: Option<BackendType>)
        ensures
            r == spec_backend_of(name@),
    {
        let n = name.unicode_len();
        if n != 4 {
            return None;
        }
        let c0 = name.get_char(0);
        let c1 = name.get_char(1);
        let c2 = name.get_char(2);
        let c3 = name.get_char(3);
        if (c0 == 'n' || c0 == 'N') && (c1 == 'o' || c1 == 'O') && (c2 == 'n' || c2 == 'N') && (c3
            == 'e' || c3 == 'E') {
            Some(BackendType::Interpreter)
        } else if (c0 == 'l' || c0 == 'L') && (c1 == 'l' || c1 == 'L') && (c2 == 'v' || c2 == 'V')
            && (c3 == 'm' || c3 == 'M') {
            Some(BackendType::LLVM)
        } else {
            None
        }
    }
}

} // verus!
