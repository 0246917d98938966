//! Validated names: [`Username`] and [`ProjectName`].
//!
//! A name is checked once, when it is parsed from text, and a value of either
//! type is valid for as long as it lives. Lengths count characters, not
//! bytes.

use vstd::prelude::*;
use vstd::string::StringExecFns;

verus! {

/// Shortest username, in characters.
pub const USERNAME_MIN: usize = 6;

/// Longest username, in characters.
pub const USERNAME_MAX: usize = 24;

/// Shortest project name, in characters.
pub const PROJECT_NAME_MIN: usize = 3;

/// Longest project name, in characters.
pub const PROJECT_NAME_MAX: usize = 64;

/// The username that stands for the caller's own identity. It is valid
/// although it is shorter than any other username.
pub open spec fn reserved_username() -> Seq<char> {
    seq!['m', 'e']
}

/// Whether a text is a username: the reserved one, or 6 to 24 characters.
pub open spec fn valid_username(text: Seq<char>) -> bool {
    text == reserved_username() || USERNAME_MIN <= text.len() <= USERNAME_MAX
}

/// Whether a text is a project name: 3 to 64 characters.
pub open spec fn valid_project_name(text: Seq<char>) -> bool {
    PROJECT_NAME_MIN <= text.len() <= PROJECT_NAME_MAX
}

/// The reason tag of a text whose length is outside the bounds: below `min`
/// it is too short, else too long.
pub open spec fn length_flaw(text: Seq<char>, min: usize) -> Seq<char> {
    if text.len() < min {
        "too_short"@
    } else {
        "too_long"@
    }
}

/// A text that is no username: the text, and the reason tag (`too_short` or
/// `too_long`).
#[derive(Debug, PartialEq, Eq)]
pub struct InvalidUsername(pub String, pub &'static str);

impl InvalidUsername {
    /// Pairs a refused text with the reason.
    pub fn new(username: &str, reason: &'static str) -> (e: InvalidUsername)
        ensures
            e.0@ == username@,
            e.1@ == reason@,
    {
        InvalidUsername(String::from_str(username), reason)
    }
}

/// A text that is no project name: the text, and the reason tag (`too_short`
/// or `too_long`).
#[derive(Debug, PartialEq, Eq)]
pub struct InvalidProjectName(pub String, pub &'static str);

impl InvalidProjectName {
    /// Pairs a refused text with the reason.
    pub fn new(project_name: &str, reason: &'static str) -> (e: InvalidProjectName)
        ensures
            e.0@ == project_name@,
            e.1@ == reason@,
    {
        InvalidProjectName(String::from_str(project_name), reason)
    }
}

/// Whether a text is the reserved username.
fn is_reserved(text: &str) -> (yes: bool)
    ensures
        yes == (text@ == reserved_username()),
{
    if text.unicode_len() != 2 {
        false
    } else {
        let yes = text.get_char(0) == 'm' && text.get_char(1) == 'e';
        assert(yes ==> text@ =~= reserved_username());
        yes
    }
}

/// The name of a user.
#[derive(Debug)]
pub struct Username(String);

impl View for Username {
    type V = Seq<char>;

    closed spec fn view(&self) -> Seq<char> {
        self.0@
    }
}

impl Username {
    #[verifier::type_invariant]
    spec fn well_formed(self) -> bool {
        valid_username(self.0@)
    }

    /// Reads a username from text. The reserved username is accepted as it
    /// is; any other text must be 6 to 24 characters long.
    pub fn parse(s: &str) -> (res: Result<Username, InvalidUsername>)
        ensures
            res is Ok <==> valid_username(s@),
            res matches Ok(name) ==> name@ == s@,
            res matches Err(e) ==> e.0@ == s@ && e.1@ == length_flaw(s@, USERNAME_MIN),
    {
        if is_reserved(s) {
            return Ok(Username(String::from_str(s)));
        }
        let chars_count = s.unicode_len();
        if chars_count < USERNAME_MIN {
            Err(InvalidUsername::new(s, "too_short"))
        } else if USERNAME_MAX < chars_count {
            Err(InvalidUsername::new(s, "too_long"))
        } else {
            Ok(Username(String::from_str(s)))
        }
    }

    /// The name as text.
    pub fn as_str(&self) -> (text: &str)
        ensures
            text@ == self@,
            valid_username(text@),
    {
        proof {
            use_type_invariant(self);
        }
        self.0.as_str()
    }

    /// The name as an owned text.
    pub fn to_string(&self) -> (text: String)
        ensures
            text@ == self@,
    {
        self.0.clone()
    }

    /// Whether this is the same name as `other`.
    pub fn same_as(&self, other: &Username) -> (same: bool)
        ensures
            same == (self@ == other@),
    {
        self.0 == other.0
    }
}

impl Clone for Username {
    fn clone(&self) -> (name: Username)
        ensures
            name@ == self@,
    {
        proof {
            use_type_invariant(self);
        }
        Username(self.0.clone())
    }
}

impl core::str::FromStr for Username {
    type Err = InvalidUsername;

    /// Reads a username from text, as [`Username::parse`] does.
    fn from_str(s: &str) -> (res: Result<Username, InvalidUsername>)
        ensures
            res is Ok <==> valid_username(s@),
            res matches Ok(name) ==> name@ == s@,
            res matches Err(e) ==> e.0@ == s@ && e.1@ == length_flaw(s@, USERNAME_MIN),
    {
        Username::parse(s)
    }
}

/// The name of a project.
#[derive(Debug)]
pub struct ProjectName(String);

impl View for ProjectName {
    type V = Seq<char>;

    closed spec fn view(&self) -> Seq<char> {
        self.0@
    }
}

impl ProjectName {
    #[verifier::type_invariant]
    spec fn well_formed(self) -> bool {
        valid_project_name(self.0@)
    }

    /// Reads a project name from text, which must be 3 to 64 characters long.
    pub fn parse(s: &str) -> (res: Result<ProjectName, InvalidProjectName>)
        ensures
            res is Ok <==> valid_project_name(s@),
            res matches Ok(name) ==> name@ == s@,
            res matches Err(e) ==> e.0@ == s@ && e.1@ == length_flaw(s@, PROJECT_NAME_MIN),
    {
        let chars_count = s.unicode_len();
        if chars_count < PROJECT_NAME_MIN {
            Err(InvalidProjectName::new(s, "too_short"))
        } else if PROJECT_NAME_MAX < chars_count {
            Err(InvalidProjectName::new(s, "too_long"))
        } else {
            Ok(ProjectName(String::from_str(s)))
        }
    }

    /// The name as text.
    pub fn as_str(&self) -> (text: &str)
        ensures
            text@ == self@,
            valid_project_name(text@),
    {
        proof {
            use_type_invariant(self);
        }
        self.0.as_str()
    }

    /// The name as an owned text.
    pub fn to_string(&self) -> (text: String)
        ensures
            text@ == self@,
    {
        self.0.clone()
    }

    /// Whether this is the same name as `other`.
    pub fn same_as(&self, other: &ProjectName) -> (same: bool)
        ensures
            same == (self@ == other@),
    {
        self.0 == other.0
    }
}

impl Clone for ProjectName {
    fn clone(&self) -> (name: ProjectName)
        ensures
            name@ == self@,
    {
        proof {
            use_type_invariant(self);
        }
        ProjectName(self.0.clone())
    }
}

impl core::str::FromStr for ProjectName {
    type Err = InvalidProjectName;

    /// Reads a project name from text, as [`ProjectName::parse`] does.
    fn from_str(s: &str) -> (res: Result<ProjectName, InvalidProjectName>)
        ensures
            res is Ok <==> valid_project_name(s@),
            res matches Ok(name) ==> name@ == s@,
            res matches Err(e) ==> e.0@ == s@ && e.1@ == length_flaw(s@, PROJECT_NAME_MIN),
    {
        ProjectName::parse(s)
    }
}

} // verus!
