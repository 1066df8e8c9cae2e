//! The safe writer's gate: a write reaches the medium only while the target
//! volume is still a distinct mounted filesystem and the payload validates.
//! The caller authorizes the path first, reads the filesystem identifiers,
//! and performs the write and the flush; every decision stands here.

use vstd::prelude::*;
use vstd::string::StringExecFns;
use crate::config::{
    lemma_valid_iff_no_issues, spec_config_ok, spec_messages_v, MidiCaptainConfig,
};
use crate::errors::ConfigError;
use crate::paths::spec_volume_root;
use crate::render::spec_render;
use crate::schema::spec_json_of_config;

verus! {

/// The filesystem identifiers the mount check compares: the target
/// volume's and the root filesystem's, or nothing when the volume could
/// not be examined.
pub type MountIds = Option<(u64, u64)>;

/// True when the identifiers show a volume that is still its own mounted
/// filesystem: both were read, and they differ. Equal identifiers mean the
/// volume was unmounted and the path now falls onto the host root.
pub open spec fn spec_mounted(ids: MountIds) -> bool {
    ids matches Some((volume, root)) && volume != root
}

/// Decides from the filesystem identifiers whether the volume is still
/// mounted.
pub fn is_volume_mounted(ids: MountIds) -> (r: bool)
    ensures
        r == spec_mounted(ids),
{
    match ids {
        Some((volume, root)) => volume != root,
        None => false,
    }
}

/// Fails exactly when `path` sits under a removable-media root whose
/// identifiers show the volume gone. A path under no such root passes: it
/// has no volume to lose.
pub fn verify_device_connected(path: &str, ids: MountIds) -> (r: Result<(), ConfigError>)
    ensures
        r is Err <==> (spec_volume_root(path@) is Some && !spec_mounted(ids)),
        r matches Err(e) ==> e.message@ == "Device was disconnected"@ && e.details is None,
{
    match crate::paths::get_volume_path(path) {
        Some(_) => {
            if is_volume_mounted(ids) {
                Ok(())
            } else {
                Err(ConfigError::new(String::from_str("Device was disconnected")))
            }
        },
        None => Ok(()),
    }
}

/// Law: equal identifiers mean the volume is no longer a distinct mounted
/// filesystem; `write_gate` then refuses with the disconnect error and
/// hands back nothing to write.
pub proof fn lemma_equal_identifiers_mean_unmounted(volume: u64, root: u64)
    requires
        volume == root,
    ensures
        !spec_mounted(Some((volume, root))),
{
}

/// Gates a configuration write. Succeeds exactly when the mount check
/// passes and the configuration violates no rule, and then returns the
/// exact document text to write; on any failure no text is produced, so a
/// caller that writes only the returned text writes nothing. A mount
/// failure is reported as a disconnect; a rule violation carries the full,
/// untruncated message list, one message per violated rule, in rule order.
pub fn write_gate(path: &str, ids: MountIds, config: &MidiCaptainConfig) -> (r: Result<
    String,
    ConfigError,
>)
    ensures
        (spec_volume_root(path@) is Some && !spec_mounted(ids)) ==> (r matches Err(e)
            && e.message@ == "Device was disconnected"@),
        !(spec_volume_root(path@) is Some && !spec_mounted(ids)) ==> {
            &&& r is Ok <==> spec_config_ok(config.deep_view())
            &&& r matches Ok(text) ==> text@ == spec_render(
                spec_json_of_config(config.deep_view()),
                0,
            )
            &&& !spec_config_ok(config.deep_view()) ==> (r matches Err(e) && e.message@
                == "Validation failed"@ && (e.details matches Some(msgs) && msgs.deep_view()
                == spec_messages_v(config.deep_view())))
        },
{
    if let Err(e) = verify_device_connected(path, ids) {
        return Err(e);
    }
    proof {
        lemma_valid_iff_no_issues(*config);
    }
    if let Err(messages) = config.validate() {
        return Err(
            ConfigError { message: String::from_str("Validation failed"), details: Some(messages) },
        );
    }
    Ok(crate::commands::serialize_config(config))
}

} // verus!
