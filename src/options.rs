use vstd::prelude::*;

use crate::session::PauseConfig;

verus! {

/// The values of the `--pause` option.
#[derive(Clone, Copy, Debug, PartialEq, Eq, Structural)]
pub enum PauseOption {
    /// Do not pause.
    No,
    /// Pause without a prompt.
    Silent,
    /// Pause after printing a prompt.
    Print,
}

/// A `--pause` value that names none of the options; it holds the value.
#[derive(Debug)]
pub struct UnrecognizedPauseOption {
    pub value: String,
}

/// The text of each option value.
pub open spec fn option_text(o: PauseOption) -> Seq<char> {
    match o {
        PauseOption::No => seq!['n', 'o'],
        PauseOption::Silent => seq!['s', 'i', 'l', 'e', 'n', 't'],
        PauseOption::Print => seq!['p', 'r', 'i', 'n', 't'],
    }
}

/// The configuration that an option selects.
pub open spec fn option_config(o: PauseOption) -> Option<PauseConfig> {
    match o {
        PauseOption::No => None,
        PauseOption::Silent => Some(PauseConfig { silent: true }),
        PauseOption::Print => Some(PauseConfig { silent: false }),
    }
}

/// The configuration for the `--pause` flag as given: absent (`None`), given
/// without a value (`Some(None)`), or given with one.
pub open spec fn flag_config(flag: Option<Option<PauseOption>>) -> Option<PauseConfig> {
    match flag {
        None => option_config(PauseOption::Print),
        Some(None) => option_config(PauseOption::Print),
        Some(Some(o)) => option_config(o),
    }
}

/// Whether `s` is, character for character, `text`.
fn text_is(s: &str, text: &Vec<char>) -> (r: bool)
    ensures
        r == (s@ == text@),
{
    let n = s.unicode_len();
    if n != text.len() {
        return false;
    }
    let mut i: usize = 0;
    while i < n
        invariant
            n == s@.len(),
            n == text@.len(),
            i <= n,
            forall|j: int| 0 <= j < i ==> s@[j] == text@[j],
        decreases n - i,
    {
        if s.get_char(i) != text[i] {
            return false;
        }
        i = i + 1;
    }
    assert(s@ =~= text@);
    true
}

impl PauseOption {
    /// Reads an option value: `no`, `silent` or `print`, exactly.
    pub fn from_str(s: &str) -> (r: Result<PauseOption, UnrecognizedPauseOption>)
        ensures
            r matches Ok(o) ==> s@ == option_text(o),
            r matches Err(e) ==> e.value@ == s@,
            r is Err <==> (forall|o: PauseOption| s@ != #[trigger] option_text(o)),
    {
        let no: Vec<char> = vec!['n', 'o'];
        let silent: Vec<char> = vec!['s', 'i', 'l', 'e', 'n', 't'];
        let print: Vec<char> = vec!['p', 'r', 'i', 'n', 't'];
        assert(no@ =~= option_text(PauseOption::No));
        assert(silent@ =~= option_text(PauseOption::Silent));
        assert(print@ =~= option_text(PauseOption::Print));
        if text_is(s, &no) {
            Ok(PauseOption::No)
        } else if text_is(s, &print) {
            Ok(PauseOption::Print)
        } else if text_is(s, &silent) {
            Ok(PauseOption::Silent)
        } else {
            assert forall|o: PauseOption| s@ != #[trigger] option_text(o) by {
                match o {
                    PauseOption::No => {},
                    PauseOption::Silent => {},
                    PauseOption::Print => {},
                }
            }
            Err(UnrecognizedPauseOption { value: s.to_owned() })
        }
    }

    /// The pause configuration that this option selects: none for `No`.
    pub fn into_pause_config(self) -> (r: Option<PauseConfig>)
        ensures
            r == option_config(self),
    {
        match self {
            PauseOption::No => None,
            PauseOption::Silent => Some(PauseConfig { silent: true }),
            PauseOption::Print => Some(PauseConfig { silent: false }),
        }
    }
}

/// The pause configuration for the `--pause` flag. An absent flag and a flag
/// without a value both mean a pause with a prompt.
pub fn resolve_pause(flag: Option<Option<PauseOption>>) -> (r: Option<PauseConfig>)
    ensures
        r == flag_config(flag),
{
    match flag {
        None => PauseOption::Print.into_pause_config(),
        Some(None) => PauseOption::Print.into_pause_config(),
        Some(Some(o)) => o.into_pause_config(),
    }
}

} // verus!
