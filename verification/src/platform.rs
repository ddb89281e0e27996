//! The operating systems the remuxer runs on, and what differs between them:
//! how paths are written and where an `ffmpeg` binary is usually installed.

use vstd::prelude::*;

verus! {

/// The operating system whose conventions apply.
#[derive(Clone, Copy, Debug, PartialEq, Eq, Structural)]
pub enum Platform {
    MacOs,
    Windows,
    Linux,
}

/// The name under which the tool is called when it is looked up through the
/// search path of the system.
pub open spec fn tool_name() -> Seq<char> {
    "ffmpeg"@
}

/// The name under which the tool is called through the search path.
pub fn tool() -> (r: &'static str)
    ensures
        r@ == tool_name(),
{
    "ffmpeg"
}

impl Platform {
    /// Whether `c` separates the components of a path.
    pub open spec fn separates(self, c: char) -> bool {
        c == '/' || (self is Windows && c == '\\')
    }

    /// The separator that is written when two paths are joined.
    pub open spec fn separator(self) -> char {
        if self is Windows {
            '\\'
        } else {
            '/'
        }
    }

    /// The places where an installed binary is looked for, most preferred
    /// first.
    pub open spec fn candidate_texts(self) -> Seq<Seq<char>> {
        match self {
            Platform::MacOs => seq![
                "/opt/homebrew/bin/ffmpeg"@,
                "/usr/local/bin/ffmpeg"@,
                "/usr/bin/ffmpeg"@,
            ],
            Platform::Windows => seq![
                "ffmpeg"@,
                "C:\\Program Files\\ffmpeg\\bin\\ffmpeg.exe"@,
                "C:\\ffmpeg\\bin\\ffmpeg.exe"@,
            ],
            Platform::Linux => seq![
                "/usr/bin/ffmpeg"@,
                "/usr/local/bin/ffmpeg"@,
                "/snap/bin/ffmpeg"@,
            ],
        }
    }

    /// Where, below the home directory of the user, a copy that this
    /// application installed itself is kept.
    pub open spec fn local_binary_text(self) -> Seq<char> {
        if self is Windows {
            "AppData\\Local\\ffmpeg\\ffmpeg.exe"@
        } else {
            ".local/bin/ffmpeg"@
        }
    }

    /// Whether `c` separates the components of a path.
    pub fn is_separator(self, c: char) -> (r: bool)
        ensures
            r == self.separates(c),
    {
        c == '/' || (matches!(self, Platform::Windows) && c == '\\')
    }

    /// The separator that is written when two paths are joined.
    pub fn separator_text(self) -> (r: &'static str)
        ensures
            r@ == seq![self.separator()],
    {
        proof {
            reveal_strlit("\\");
            reveal_strlit("/");
        }
        let r = match self {
            Platform::Windows => "\\",
            _ => "/",
        };
        assert(r@ =~= seq![self.separator()]);
        r
    }

    /// The places where an installed binary is looked for, most preferred
    /// first.
    pub fn candidates(self) -> (r: Vec<String>)
        ensures
            r.deep_view() == self.candidate_texts(),
    {
        let mut r: Vec<String> = Vec::new();
        match self {
            Platform::MacOs => {
                r.push(String::from_str("/opt/homebrew/bin/ffmpeg"));
                r.push(String::from_str("/usr/local/bin/ffmpeg"));
                r.push(String::from_str("/usr/bin/ffmpeg"));
            },
            Platform::Windows => {
                r.push(String::from_str("ffmpeg"));
                r.push(String::from_str("C:\\Program Files\\ffmpeg\\bin\\ffmpeg.exe"));
                r.push(String::from_str("C:\\ffmpeg\\bin\\ffmpeg.exe"));
            },
            Platform::Linux => {
                r.push(String::from_str("/usr/bin/ffmpeg"));
                r.push(String::from_str("/usr/local/bin/ffmpeg"));
                r.push(String::from_str("/snap/bin/ffmpeg"));
            },
        }
        assert(r.deep_view() =~= self.candidate_texts());
        r
    }

    /// Where, below the home directory of the user, a copy that this
    /// application installed itself is kept.
    pub fn local_binary(self) -> (r: &'static str)
        ensures
            r@ == self.local_binary_text(),
    {
        match self {
            Platform::Windows => "AppData\\Local\\ffmpeg\\ffmpeg.exe",
            _ => ".local/bin/ffmpeg",
        }
    }
}

} // verus!
