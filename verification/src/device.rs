//! Device detection: classifying mounted volumes and scanning the volumes
//! directory for known devices.

use vstd::prelude::*;
use vstd::string::{StrSliceExecFns, StringExecFns};
use crate::paths::{is_device_label, spec_is_device_label, spec_split};
use crate::text::str_eq;

verus! {

/// A device volume seen by one scan: its label, its mount path, the path
/// its configuration file would have, and whether that file existed at scan
/// time. Not kept across scans.
#[derive(Debug, Clone)]
pub struct DetectedDevice {
    pub name: String,
    pub path: String,
    pub config_path: String,
    pub has_config: bool,
}

/// The labels that name a known device volume, exactly as the firmware
/// names them.
pub fn device_volumes() -> (r: Vec<String>)
    ensures
        r.deep_view() =~= seq!["CIRCUITPY"@, "MIDICAPTAIN"@],
{
    let r = vec![String::from_str("CIRCUITPY"), String::from_str("MIDICAPTAIN")];
    proof {
        assert(r.deep_view() =~= seq!["CIRCUITPY"@, "MIDICAPTAIN"@]);
    }
    r
}

/// The display name of the volume at `path`: its last path component,
/// taken from the text as written. A path ending in a separator or in a
/// relative segment names no volume — a deliberate choice: the scanner and
/// the watcher hand whole directory entries here, which carry neither, and
/// a path that does is not a volume root.
pub open spec fn spec_volume_name(s: Seq<char>) -> Option<Seq<char>> {
    let c = spec_split(s);
    if c.last().len() > 0 && c.last() != "."@ && c.last() != ".."@ {
        Some(c.last())
    } else {
        None
    }
}

/// The display name of the volume at `path`.
pub fn get_volume_name(path: &str) -> (r: Option<String>)
    ensures
        match r {
            Some(name) => spec_volume_name(path@) == Some(name@),
            None => spec_volume_name(path@) is None,
        },
{
    let c = crate::paths::split_path(path);
    proof {
        assert(c@.len() > 0);
        assert(c.deep_view().last() == c@[c@.len() - 1]@);
    }
    let last = &c[c.len() - 1];
    if !last.as_str().is_empty() && !str_eq(last.as_str(), ".") && !str_eq(last.as_str(), "..") {
        Some(last.clone())
    } else {
        None
    }
}

/// Relies on std's `Path::exists`: whether something exists at the path on
/// disk right now.
#[verifier::external_body]
fn path_exists(path: &str) -> (r: bool) {
    std::path::Path::new(path).exists()
}

/// Relies on std's `Path::read_dir`: the entries the directory holds on
/// disk right now, each as its full path; nothing when the directory cannot
/// be read. An entry that cannot be read or whose path is not valid text is
/// dropped from the listing.
#[verifier::external_body]
fn list_dir(path: &str) -> (r: Option<Vec<String>>) {
    match std::path::Path::new(path).read_dir() {
        Ok(entries) => Some(
            entries.flatten().filter_map(|e| e.path().to_str().map(|s| s.to_string())).collect(),
        ),
        Err(_) => None,
    }
}

/// The configuration file path on the volume at `path`.
pub open spec fn spec_config_path(path: Seq<char>) -> Seq<char> {
    path + "/config.json"@
}

/// Classifies a volume whose display name was looked up separately — the
/// entry point for hosts where the label is not the mount path's last
/// component but comes from a platform query on the volume root. A device
/// exactly when the label matches a known device name, case-insensitively;
/// the label keeps its case, and whether the fixed configuration file
/// exists at the volume root is read at this moment.
pub fn check_labeled_volume(path: &str, name: String) -> (r: Option<DetectedDevice>)
    ensures
        r is Some <==> spec_is_device_label(name@),
        r matches Some(d) ==> {
            &&& d.name@ == name@
            &&& d.path@ == path@
            &&& d.config_path@ == spec_config_path(path@)
        },
{
    if is_device_label(name.as_str()) {
        let mut config_path = String::from_str(path);
        config_path.append("/config.json");
        let has_config = path_exists(config_path.as_str());
        Some(DetectedDevice { name, path: String::from_str(path), config_path, has_config })
    } else {
        None
    }
}

/// Classifies the volume mounted at `path`: a device exactly when the
/// volume's display name — its last path component — matches a known
/// device label, case-insensitively. The device keeps the name's case as
/// it stands, and reports whether the fixed configuration file exists at
/// the volume root at this moment.
pub fn check_volume(path: &str) -> (r: Option<DetectedDevice>)
    ensures
        r is Some <==> (spec_volume_name(path@) matches Some(name) && spec_is_device_label(name)),
        r matches Some(d) ==> {
            &&& spec_volume_name(path@) == Some(d.name@)
            &&& d.path@ == path@
            &&& d.config_path@ == spec_config_path(path@)
        },
{
    match get_volume_name(path) {
        Some(name) => check_labeled_volume(path, name),
        None => None,
    }
}

/// Among `paths`, the ones whose volume is a known device, in order.
pub open spec fn spec_device_paths(paths: Seq<Seq<char>>) -> Seq<Seq<char>>
    decreases paths.len(),
{
    if paths.len() == 0 {
        Seq::empty()
    } else {
        let head = match spec_volume_name(paths.first()) {
            Some(name) => if spec_is_device_label(name) {
                seq![paths.first()]
            } else {
                Seq::empty()
            },
            None => Seq::empty(),
        };
        head + spec_device_paths(paths.drop_first())
    }
}

fn classify_from(entries: &Vec<String>, i: usize) -> (r: Vec<DetectedDevice>)
    requires
        i <= entries@.len(),
    ensures
        r@.len() == spec_device_paths(entries.deep_view().skip(i as int)).len(),
        forall|k: int|
            0 <= k < r@.len() ==> {
                &&& (#[trigger] r@[k]).path@ == spec_device_paths(
                    entries.deep_view().skip(i as int),
                )[k]
                &&& spec_volume_name(r@[k].path@) == Some(r@[k].name@)
                &&& spec_is_device_label(r@[k].name@)
                &&& r@[k].config_path@ == spec_config_path(r@[k].path@)
            },
    decreases entries@.len() - i,
{
    let ghost s = entries.deep_view().skip(i as int);
    if i == entries.len() {
        proof {
            assert(s =~= Seq::<Seq<char>>::empty());
        }
        Vec::new()
    } else {
        proof {
            assert(s.first() == entries.deep_view()[i as int]);
            assert(entries.deep_view()[i as int] == entries@[i as int]@);
            assert(s.drop_first() =~= entries.deep_view().skip(i + 1));
        }
        let mut rest = classify_from(entries, i + 1);
        match check_volume(entries[i].as_str()) {
            Some(device) => {
                rest.insert(0, device);
                proof {
                    assert(spec_device_paths(s) =~= seq![s.first()] + spec_device_paths(
                        s.drop_first(),
                    ));
                }
                rest
            },
            None => {
                proof {
                    assert(spec_device_paths(s) =~= spec_device_paths(s.drop_first()));
                }
                rest
            },
        }
    }
}

/// Classifies a listing of the volumes directory: exactly the entries that
/// are known device volumes, in the listing's order, each with its label,
/// mount path and configuration file path.
pub fn classify_entries(entries: &Vec<String>) -> (r: Vec<DetectedDevice>)
    ensures
        r@.len() == spec_device_paths(entries.deep_view()).len(),
        forall|k: int|
            0 <= k < r@.len() ==> {
                &&& (#[trigger] r@[k]).path@ == spec_device_paths(entries.deep_view())[k]
                &&& spec_volume_name(r@[k].path@) == Some(r@[k].name@)
                &&& spec_is_device_label(r@[k].name@)
                &&& r@[k].config_path@ == spec_config_path(r@[k].path@)
            },
{
    proof {
        assert(entries.deep_view().skip(0) =~= entries.deep_view());
    }
    classify_from(entries, 0)
}

/// Scans the volumes directory: the classification of each listed entry in
/// enumeration order, keeping only the known devices. The listing itself
/// depends on the machine's state (an unreadable directory gives the empty
/// listing, not an error); `classify_entries` carries the exact contract
/// from a listing to the devices, and each returned entry is restated here
/// to be a classified device volume.
pub fn scan_devices(volumes_path: &str) -> (r: Vec<DetectedDevice>)
    ensures
        forall|k: int|
            0 <= k < r@.len() ==> {
                &&& spec_volume_name((#[trigger] r@[k]).path@) matches Some(name)
                    && spec_is_device_label(name) && r@[k].name@ == name
                &&& r@[k].config_path@ == spec_config_path(r@[k].path@)
            },
{
    let entries = match list_dir(volumes_path) {
        Some(entries) => entries,
        None => Vec::new(),
    };
    classify_entries(&entries)
}

} // verus!
