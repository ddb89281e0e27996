//! Fetching a built `ffmpeg` binary: where the archive comes from, which of
//! its entries is the binary, and where the binary is put.

use vstd::prelude::*;
use crate::locator::local_copy;
use crate::path::{join, joined};
use crate::platform::Platform;
use crate::text::characters;

verus! {

/// The address of an archive that holds a binary for `p`; none for Linux,
/// where the package manager is all there is.
pub open spec fn download_url_text(p: Platform) -> Option<Seq<char>> {
    match p {
        Platform::MacOs => Some("https://evermeet.cx/ffmpeg/getrelease/ffmpeg/zip"@),
        Platform::Windows => Some(
            "https://www.gyan.dev/ffmpeg/builds/ffmpeg-release-essentials.zip"@,
        ),
        Platform::Linux => None,
    }
}

/// The name of the binary.
pub open spec fn binary_name_text(p: Platform) -> Seq<char> {
    if p is Windows {
        "ffmpeg.exe"@
    } else {
        "ffmpeg"@
    }
}

/// The directory, below the home directory `home`, that the binary is put
/// into.
pub open spec fn install_dir_text(p: Platform, home: Seq<char>) -> Seq<char> {
    if p is Windows {
        joined(p, joined(p, joined(p, home, "AppData"@), "Local"@), "ffmpeg"@)
    } else {
        joined(p, joined(p, home, ".local"@), "bin"@)
    }
}

/// `s` ends with `suffix`.
pub open spec fn ends_with(s: Seq<char>, suffix: Seq<char>) -> bool {
    suffix.len() <= s.len() && s.subrange(s.len() - suffix.len(), s.len() as int) == suffix
}

/// Whether the archive entry called `name` is the binary. In the archive for
/// Windows it is the entry whose name ends with `ffmpeg.exe`; in the other
/// it is called `ffmpeg` and may lie in a directory.
pub open spec fn is_binary_entry(p: Platform, name: Seq<char>) -> bool {
    if p is Windows {
        ends_with(name, "ffmpeg.exe"@)
    } else {
        name == "ffmpeg"@ || ends_with(name, "/ffmpeg"@)
    }
}

/// The binary is put where the search for an installed copy looks for it.
pub proof fn lemma_installed_where_searched(p: Platform, home: Seq<char>)
    ensures
        Some(joined(p, install_dir_text(p, home), binary_name_text(p))) == local_copy(
            p,
            Some(home),
        ),
{
    reveal_strlit("AppData");
    reveal_strlit("Local");
    reveal_strlit("ffmpeg");
    reveal_strlit("ffmpeg.exe");
    reveal_strlit("AppData\\Local\\ffmpeg\\ffmpeg.exe");
    reveal_strlit(".local");
    reveal_strlit("bin");
    reveal_strlit(".local/bin/ffmpeg");
    let sep = seq![p.separator()];
    let start = if home.len() > 0 && !p.separates(home.last()) {
        home + sep
    } else {
        home
    };
    if p is Windows {
        assert(joined(p, home, "AppData"@) =~= start + "AppData"@);
        assert(joined(p, joined(p, home, "AppData"@), "Local"@) =~= start + "AppData"@ + sep
            + "Local"@);
        assert(install_dir_text(p, home) =~= start + "AppData"@ + sep + "Local"@ + sep
            + "ffmpeg"@);
        assert(joined(p, install_dir_text(p, home), "ffmpeg.exe"@) =~= start + "AppData"@ + sep
            + "Local"@ + sep + "ffmpeg"@ + sep + "ffmpeg.exe"@);
        assert("AppData"@ + sep + "Local"@ + sep + "ffmpeg"@ + sep + "ffmpeg.exe"@
            =~= "AppData\\Local\\ffmpeg\\ffmpeg.exe"@);
        assert(joined(p, home, "AppData\\Local\\ffmpeg\\ffmpeg.exe"@) =~= start
            + "AppData\\Local\\ffmpeg\\ffmpeg.exe"@);
        assert(joined(p, install_dir_text(p, home), "ffmpeg.exe"@) =~= joined(
            p,
            home,
            "AppData\\Local\\ffmpeg\\ffmpeg.exe"@,
        ));
    } else {
        assert(joined(p, home, ".local"@) =~= start + ".local"@);
        assert(install_dir_text(p, home) =~= start + ".local"@ + sep + "bin"@);
        assert(joined(p, install_dir_text(p, home), "ffmpeg"@) =~= start + ".local"@ + sep
            + "bin"@ + sep + "ffmpeg"@);
        assert(".local"@ + sep + "bin"@ + sep + "ffmpeg"@ =~= ".local/bin/ffmpeg"@);
        assert(joined(p, home, ".local/bin/ffmpeg"@) =~= start + ".local/bin/ffmpeg"@);
        assert(joined(p, install_dir_text(p, home), "ffmpeg"@) =~= joined(
            p,
            home,
            ".local/bin/ffmpeg"@,
        ));
    }
}

/// The address of the archive for `platform`.
pub fn download_url(platform: Platform) -> (r: Option<&'static str>)
    ensures
        r.deep_view() == download_url_text(platform),
{
    match platform {
        Platform::MacOs => Some("https://evermeet.cx/ffmpeg/getrelease/ffmpeg/zip"),
        Platform::Windows => Some(
            "https://www.gyan.dev/ffmpeg/builds/ffmpeg-release-essentials.zip",
        ),
        Platform::Linux => None,
    }
}

/// The name of the binary on `platform`.
pub fn binary_name(platform: Platform) -> (r: &'static str)
    ensures
        r@ == binary_name_text(platform),
{
    match platform {
        Platform::Windows => "ffmpeg.exe",
        _ => "ffmpeg",
    }
}

/// The name under which the archive is kept, in the directory of the binary,
/// until the binary is taken out of it.
pub fn archive_name() -> (r: &'static str)
    ensures
        r@ == "ffmpeg_temp.zip"@,
{
    "ffmpeg_temp.zip"
}

/// Whether the binary, once written, has to be marked as a program that may
/// be run: on macOS.
pub fn marks_executable(platform: Platform) -> (r: bool)
    ensures
        r == (platform is MacOs),
{
    matches!(platform, Platform::MacOs)
}

/// The directory that the binary is put into.
pub fn install_dir(platform: Platform, home: &str) -> (r: String)
    ensures
        r@ == install_dir_text(platform, home@),
{
    match platform {
        Platform::Windows => {
            let a = join(platform, home, "AppData");
            let b = join(platform, a.as_str(), "Local");
            join(platform, b.as_str(), "ffmpeg")
        },
        _ => {
            let a = join(platform, home, ".local");
            join(platform, a.as_str(), "bin")
        },
    }
}

fn has_suffix(s: &Vec<char>, suffix: &Vec<char>) -> (r: bool)
    ensures
        r == ends_with(s@, suffix@),
{
    if suffix.len() > s.len() {
        return false;
    }
    let shift = s.len() - suffix.len();
    let ghost tail = s@.subrange(shift as int, s.len() as int);
    let mut i: usize = 0;
    while i < suffix.len()
        invariant
            i <= suffix.len() <= s.len(),
            shift == s.len() - suffix.len(),
            tail == s@.subrange(shift as int, s.len() as int),
            forall|j: int| 0 <= j < i ==> tail[j] == suffix@[j],
        decreases suffix.len() - i,
    {
        assert(tail[i as int] == s@[shift + i]);
        if s[shift + i] != suffix[i] {
            return false;
        }
        i = i + 1;
    }
    assert(tail =~= suffix@);
    true
}

/// Whether the archive entry called `name` is the binary for `platform`.
pub fn is_binary_entry_name(platform: Platform, name: &str) -> (r: bool)
    ensures
        r == is_binary_entry(platform, name@),
{
    let chars = characters(name);
    match platform {
        Platform::Windows => has_suffix(&chars, &characters("ffmpeg.exe")),
        _ => {
            let whole = characters("ffmpeg");
            let is_whole = chars.len() == whole.len() && has_suffix(&chars, &whole);
            proof {
                if chars.len() == whole.len() {
                    assert(chars@.subrange(0, chars@.len() as int) =~= chars@);
                }
            }
            is_whole || has_suffix(&chars, &characters("/ffmpeg"))
        },
    }
}

} // verus!
