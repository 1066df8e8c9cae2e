//! The path authority: resolves where a path sits among the removable-media
//! roots, and authorizes only paths on a recognized device volume.

use vstd::prelude::*;
use vstd::string::{StrSliceExecFns, StringExecFns};
use crate::errors::ConfigError;
use crate::text::{spec_lower, str_eq, str_eq_ignore_ascii_case};

verus! {

/// The first path component of `s`: its characters up to the first slash.
pub open spec fn spec_first_component(s: Seq<char>) -> Seq<char>
    decreases s.len(),
{
    if s.len() == 0 || s.first() == '/' {
        Seq::empty()
    } else {
        seq![s.first()] + spec_first_component(s.drop_first())
    }
}

/// The components of `s`, split at every slash; empty components are kept.
pub open spec fn spec_split(s: Seq<char>) -> Seq<Seq<char>>
    decreases s.len(),
{
    let c = spec_first_component(s);
    if c.len() >= s.len() {
        seq![c]
    } else {
        seq![c] + spec_split(s.skip((c.len() + 1) as int))
    }
}

proof fn lemma_first_component(s: Seq<char>, i: int)
    requires
        0 <= i <= s.len(),
        forall|j: int| 0 <= j < i ==> s[j] != '/',
        i < s.len() ==> s[i] == '/',
    ensures
        spec_first_component(s) == s.subrange(0, i),
    decreases s.len(),
{
    if s.len() == 0 || s.first() == '/' {
        assert(s.subrange(0, i) =~= Seq::empty());
    } else {
        lemma_first_component(s.drop_first(), i - 1);
        assert(s.drop_first().subrange(0, i - 1) =~= s.subrange(1, i));
        assert(seq![s.first()] + s.subrange(1, i) =~= s.subrange(0, i));
    }
}

/// Splits a path at every slash.
pub fn split_path(s: &str) -> (r: Vec<String>)
    ensures
        r.deep_view() == spec_split(s@),
    decreases s@.len(),
{
    let n = s.unicode_len();
    let mut i: usize = 0;
    while i < n && s.get_char(i) != '/'
        invariant
            n == s@.len(),
            i <= n,
            forall|j: int| 0 <= j < i ==> s@[j] != '/',
        decreases n - i,
    {
        i = i + 1;
    }
    proof {
        lemma_first_component(s@, i as int);
    }
    let first = s.substring_char(0, i);
    if i == n {
        let r = vec![String::from_str(first)];
        proof {
            assert(r.deep_view() =~= spec_split(s@));
        }
        r
    } else {
        let rest = s.substring_char(i + 1, n);
        let tail = split_path(rest);
        let mut r = vec![String::from_str(first)];
        let mut k: usize = 0;
        proof {
            assert(rest@ =~= s@.skip(i + 1));
        }
        while k < tail.len()
            invariant
                k <= tail@.len(),
                r@.len() == k + 1,
                r@[0]@ == spec_first_component(s@),
                forall|j: int| 0 <= j < k ==> r@[j + 1]@ == (#[trigger] tail@[j])@,
            decreases tail@.len() - k,
        {
            r.push(tail[k].clone());
            k = k + 1;
        }
        proof {
            assert forall|j: int| 0 <= j < r.deep_view().len() implies r.deep_view()[j]
                == spec_split(s@)[j] by {
                if j > 0 {
                    assert(tail.deep_view()[j - 1] == tail@[j - 1]@);
                }
            }
            assert(r.deep_view() =~= spec_split(s@));
        }
        r
    }
}

/// The volume label under which a path sits, by the removable-media layout:
/// a direct child of `/Volumes`, or of a user directory under `/media` or
/// `/run/media`. `None` when the path sits under none of these roots.
pub open spec fn spec_volume_label(s: Seq<char>) -> Option<Seq<char>> {
    let c = spec_split(s);
    if c.len() >= 3 && c[0] == Seq::<char>::empty() && c[1] == "Volumes"@ && c[2].len() > 0 {
        Some(c[2])
    } else if c.len() >= 4 && c[0] == Seq::<char>::empty() && c[1] == "media"@ && c[2].len() > 0
        && c[3].len() > 0 {
        Some(c[3])
    } else if c.len() >= 5 && c[0] == Seq::<char>::empty() && c[1] == "run"@ && c[2] == "media"@
        && c[3].len() > 0 && c[4].len() > 0 {
        Some(c[4])
    } else {
        None
    }
}

/// The mount root of the volume under which a path sits: the label joined
/// onto the removable-media root.
pub open spec fn spec_volume_root(s: Seq<char>) -> Option<Seq<char>> {
    let c = spec_split(s);
    if c.len() >= 3 && c[0] == Seq::<char>::empty() && c[1] == "Volumes"@ && c[2].len() > 0 {
        Some("/Volumes/"@ + c[2])
    } else if c.len() >= 4 && c[0] == Seq::<char>::empty() && c[1] == "media"@ && c[2].len() > 0
        && c[3].len() > 0 {
        Some("/media/"@ + c[2] + "/"@ + c[3])
    } else if c.len() >= 5 && c[0] == Seq::<char>::empty() && c[1] == "run"@ && c[2] == "media"@
        && c[3].len() > 0 && c[4].len() > 0 {
        Some("/run/media/"@ + c[3] + "/"@ + c[4])
    } else {
        None
    }
}

/// The volume label under which `path` sits, if it sits under a
/// removable-media root.
pub fn get_path_volume_name(path: &str) -> (r: Option<String>)
    ensures
        match r {
            Some(name) => spec_volume_label(path@) == Some(name@),
            None => spec_volume_label(path@) is None,
        },
{
    let c = split_path(path);
    proof {
        assert(forall|j: int| 0 <= j < c@.len() ==> c.deep_view()[j] == (#[trigger] c@[j])@);
    }
    if c.len() >= 3 && c[0].as_str().is_empty() && str_eq(c[1].as_str(), "Volumes") && !c[2].as_str().is_empty() {
        Some(c[2].clone())
    } else if c.len() >= 4 && c[0].as_str().is_empty() && str_eq(c[1].as_str(), "media")
        && !c[2].as_str().is_empty() && !c[3].as_str().is_empty() {
        Some(c[3].clone())
    } else if c.len() >= 5 && c[0].as_str().is_empty() && str_eq(c[1].as_str(), "run") && str_eq(
        c[2].as_str(),
        "media",
    ) && !c[3].as_str().is_empty() && !c[4].as_str().is_empty() {
        Some(c[4].clone())
    } else {
        None
    }
}

/// The mount root of the volume under which `path` sits, if it sits under a
/// removable-media root.
pub fn get_volume_path(path: &str) -> (r: Option<String>)
    ensures
        match r {
            Some(root) => spec_volume_root(path@) == Some(root@),
            None => spec_volume_root(path@) is None,
        },
{
    let c = split_path(path);
    proof {
        assert(forall|j: int| 0 <= j < c@.len() ==> c.deep_view()[j] == (#[trigger] c@[j])@);
    }
    if c.len() >= 3 && c[0].as_str().is_empty() && str_eq(c[1].as_str(), "Volumes") && !c[2].as_str().is_empty() {
        let mut root = String::from_str("/Volumes/");
        root.append(c[2].as_str());
        Some(root)
    } else if c.len() >= 4 && c[0].as_str().is_empty() && str_eq(c[1].as_str(), "media")
        && !c[2].as_str().is_empty() && !c[3].as_str().is_empty() {
        let mut root = String::from_str("/media/");
        root.append(c[2].as_str());
        root.append("/");
        root.append(c[3].as_str());
        Some(root)
    } else if c.len() >= 5 && c[0].as_str().is_empty() && str_eq(c[1].as_str(), "run") && str_eq(
        c[2].as_str(),
        "media",
    ) && !c[3].as_str().is_empty() && !c[4].as_str().is_empty() {
        let mut root = String::from_str("/run/media/");
        root.append(c[3].as_str());
        root.append("/");
        root.append(c[4].as_str());
        Some(root)
    } else {
        None
    }
}

/// True of the labels that name a known device volume, up to ASCII case.
pub open spec fn spec_is_device_label(name: Seq<char>) -> bool {
    spec_lower(name) == spec_lower("CIRCUITPY"@) || spec_lower(name) == spec_lower("MIDICAPTAIN"@)
}

/// Decides whether a label names a known device volume, ignoring ASCII
/// case.
pub fn is_device_label(name: &str) -> (r: bool)
    ensures
        r == spec_is_device_label(name@),
{
    str_eq_ignore_ascii_case(name, "CIRCUITPY") || str_eq_ignore_ascii_case(name, "MIDICAPTAIN")
}

/// Authorizes a canonical path: it must sit under a removable-media root
/// whose volume label names a known device. A path under no such root is
/// refused as unresolvable to a volume; one under a foreign volume is
/// refused by that volume's name — traversal to any other location cannot
/// be authorized.
pub fn authorize_canonical(canonical: &str) -> (r: Result<(), ConfigError>)
    ensures
        r is Ok <==> (spec_volume_label(canonical@) matches Some(name) && spec_is_device_label(
            name,
        )),
        spec_volume_label(canonical@) is None ==> (r matches Err(e) && e.message@
            == "Could not determine volume name for path"@ && e.details is None),
        spec_volume_label(canonical@) matches Some(name) ==> (!spec_is_device_label(name) ==> (
        r matches Err(e) && e.message@
            == "Path must be on a MIDI Captain device (CIRCUITPY or MIDICAPTAIN volume), found: "@
            + name && e.details is None)),
{
    let name = match get_path_volume_name(canonical) {
        Some(name) => name,
        None => {
            return Err(
                ConfigError::new(String::from_str("Could not determine volume name for path")),
            );
        },
    };
    if is_device_label(name.as_str()) {
        Ok(())
    } else {
        let mut message = String::from_str(
            "Path must be on a MIDI Captain device (CIRCUITPY or MIDICAPTAIN volume), found: ",
        );
        message.append(name.as_str());
        Err(ConfigError { message, details: None })
    }
}

/// Relies on std's `Path::canonicalize`: resolves symlinks and relative
/// segments against the real filesystem, so the result depends on what is
/// on disk. Returns the canonical absolute form; when the path does not
/// exist or cannot be resolved, the error's own description.
#[verifier::external_body]
fn canonicalize_path(path: &str) -> (r: Result<String, String>) {
    match std::path::Path::new(path).canonicalize() {
        Ok(p) => match p.to_str() {
            Some(s) => Ok(s.to_string()),
            None => Err("path is not valid UTF-8".to_string()),
        },
        Err(e) => Err(e.to_string()),
    }
}

/// True of the message that reports a path the filesystem cannot resolve:
/// the fixed prefix, then the resolver's description.
pub open spec fn spec_unresolvable_message(m: Seq<char>) -> bool {
    m.len() >= "Input watch path is neither a file nor a directory: "@.len() && m.subrange(
        0,
        "Input watch path is neither a file nor a directory: "@.len() as int,
    ) == "Input watch path is neither a file nor a directory: "@
}

/// True of the message that reports a resolvable path on a foreign volume.
pub open spec fn spec_foreign_volume_message(m: Seq<char>) -> bool {
    exists|name: Seq<char>|
        m == "Path must be on a MIDI Captain device (CIRCUITPY or MIDICAPTAIN volume), found: "@
            + name
}

/// Authorizes an externally supplied path: canonicalizes it against the
/// filesystem and requires the canonical form to sit on a known device
/// volume, then returns that canonical form. Which canonical form a path
/// has depends on what is mounted, so the contract ties the result: a path
/// is accepted only as a canonical text whose volume label names a known
/// device, and every refusal carries one of the three fixed messages.
/// `authorize_canonical` carries the exact canonical-level rule.
pub fn validate_device_path(path: &str) -> (r: Result<String, ConfigError>)
    ensures
        r matches Ok(c) ==> (spec_volume_label(c@) matches Some(name) && spec_is_device_label(
            name,
        )),
        r matches Err(e) ==> e.details is None && (spec_unresolvable_message(e.message@)
            || e.message@ == "Could not determine volume name for path"@
            || spec_foreign_volume_message(e.message@)),
{
    let canonical = match canonicalize_path(path) {
        Ok(c) => c,
        Err(detail) => {
            let mut message = String::from_str(
                "Input watch path is neither a file nor a directory: ",
            );
            message.append(detail.as_str());
            proof {
                assert(message@.subrange(
                    0,
                    "Input watch path is neither a file nor a directory: "@.len() as int,
                ) =~= "Input watch path is neither a file nor a directory: "@);
            }
            return Err(ConfigError { message, details: None });
        },
    };
    match authorize_canonical(canonical.as_str()) {
        Ok(()) => Ok(canonical),
        Err(e) => Err(e),
    }
}

} // verus!
