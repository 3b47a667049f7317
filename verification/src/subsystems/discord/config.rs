//! The configuration of the Discord rich presence and its validation.

use vstd::prelude::*;
use crate::utils::text::chars_of;

verus! {

/// A problem found while validating a configuration.
#[derive(Debug)]
pub struct ValidationError {
    /// The configuration field, as a `::`-separated path.
    pub field: String,
    /// What is wrong with it.
    pub message: String,
}

impl ValidationError {
    /// A validation error for a field.
    pub fn new(field: &str, message: &str) -> (r: Self)
        ensures
            r.field@ == field@,
            r.message@ == message@,
    {
        ValidationError { field: String::from_str(field), message: String::from_str(message) }
    }
}

/// A configuration section that can validate and repair itself.
pub trait Configuration {
    /// The problems of the configuration; `prefix` is the path of the section.
    fn validate(&self, prefix: &str) -> Vec<ValidationError>;

    /// Repairs what can be repaired.
    fn repair(&mut self);
}

/// The configuration of the rich presence shown in Discord. Unset options
/// fall back to their defaults.
#[derive(Debug, Clone)]
pub struct RichPresenceConfig {
    pub enable: Option<bool>,
    pub client_id: Option<String>,
    pub enable_idle: Option<bool>,
    pub show_current_workspace: Option<bool>,
    pub show_current_file: Option<bool>,
}

/// The client id used when none is configured.
pub open spec fn default_client_id() -> Seq<char> {
    "1343225099834101810"@
}

/// A set flag, or `false`.
pub open spec fn flag_or_false(o: Option<bool>) -> bool {
    match o {
        Some(b) => b,
        None => false,
    }
}

/// An ASCII digit.
pub open spec fn ascii_digit(c: char) -> bool {
    '0' <= c && c <= '9'
}

/// The text holds 18 ASCII digits in a row (what the pattern `[0-9]{18}`
/// finds).
pub open spec fn has_18_digit_run(s: Seq<char>) -> bool {
    exists|i: int| 0 <= i && i + 18 <= s.len() && #[trigger] digit_run_at(s, i)
}

/// The 18 characters from position `i` on are ASCII digits.
pub open spec fn digit_run_at(s: Seq<char>, i: int) -> bool {
    forall|j: int| i <= j < i + 18 ==> #[trigger] ascii_digit(s[j])
}

/// Whether a client id holds 18 ASCII digits in a row, the form Discord
/// client ids take.
pub fn has_digit_run_of_18(s: &str) -> (r: bool)
    ensures
        r == has_18_digit_run(s@),
{
    let chars = chars_of(s);
    let n = chars.len();
    let mut run: usize = 0;
    let mut i: usize = 0;
    while i < n
        invariant
            chars@ == s@,
            n == s@.len(),
            0 <= i <= n,
            run <= i,
            run < 18,
            forall|j: int| i - run <= j < i ==> #[trigger] ascii_digit(s@[j]),
            i - run > 0 ==> !ascii_digit(s@[i - run - 1]),
            !has_18_digit_run(s@.take(i as int)),
        decreases n - i,
    {
        let c = chars[i];
        if '0' <= c && c <= '9' {
            run = run + 1;
            if run == 18 {
                assert(digit_run_at(s@, i + 1 - 18));
                return true;
            }
        } else {
            run = 0;
        }
        i = i + 1;
        assert(!has_18_digit_run(s@.take(i as int))) by {
            if has_18_digit_run(s@.take(i as int)) {
                let t = s@.take(i as int);
                let w = choose|w: int| 0 <= w && w + 18 <= t.len() && #[trigger] digit_run_at(t, w);
                if w + 18 < i {
                    assert(digit_run_at(s@.take(i - 1), w));
                } else {
                    assert(ascii_digit(t[i - 1]));
                    if i - run > 0 {
                        assert(ascii_digit(t[i - run - 1]));
                    }
                }
            }
        }
    }
    assert(s@.take(n as int) =~= s@);
    false
}

impl RichPresenceConfig {
    /// Whether rich presence is enabled; off unless set.
    pub fn is_enabled(&self) -> (r: bool)
        ensures
            r == flag_or_false(self.enable),
    {
        match self.enable {
            Some(b) => b,
            None => false,
        }
    }

    /// The Discord client id; the application's own id unless set.
    pub fn client_id(&self) -> (r: String)
        ensures
            r@ == match self.client_id {
                Some(c) => c@,
                None => default_client_id(),
            },
    {
        match &self.client_id {
            Some(c) => c.clone(),
            None => String::from_str("1343225099834101810"),
        }
    }

    /// Whether the idle status is shown; off unless set.
    pub fn is_enable_idle(&self) -> (r: bool)
        ensures
            r == flag_or_false(self.enable_idle),
    {
        match self.enable_idle {
            Some(b) => b,
            None => false,
        }
    }

    /// Whether the current workspace may be shown; off unless set.
    pub fn can_show_current_workspace(&self) -> (r: bool)
        ensures
            r == flag_or_false(self.show_current_workspace),
    {
        match self.show_current_workspace {
            Some(b) => b,
            None => false,
        }
    }

    /// Whether the current file may be shown; off unless set.
    pub fn can_show_current_file(&self) -> (r: bool)
        ensures
            r == flag_or_false(self.show_current_file),
    {
        match self.show_current_file {
            Some(b) => b,
            None => false,
        }
    }
}

impl Default for RichPresenceConfig {
    /// No option set.
    fn default() -> (r: Self)
        ensures
            r.enable is None,
            r.client_id is None,
            r.enable_idle is None,
            r.show_current_workspace is None,
            r.show_current_file is None,
    {
        Self {
            enable: None,
            client_id: None,
            enable_idle: None,
            show_current_workspace: None,
            show_current_file: None,
        }
    }
}

impl Configuration for RichPresenceConfig {
    /// Validation always passes for the rich presence configuration.
    fn validate(&self, prefix: &str) -> (r: Vec<ValidationError>)
        ensures
            r@.len() == 0,
    {
        Vec::new()
    }

    /// Nothing in this section needs repair.
    fn repair(&mut self)
        ensures
            *final(self) == *old(self),
    {
    }
}

} // verus!
