//! Self-update: deciding whether a release is newer, where the staged
//! binary and its marker live, checking a download, and the crash-safe
//! binary swap performed at start-up.
use vstd::prelude::*;
use crate::config::{joined, join_path, Platform};
use crate::text::{concat, decimal, decimal_string, same_text, strip_leading, to_owned_text, trim_start_char};

verus! {

/// Major, minor and patch numbers of a semantic version.
#[derive(Debug, Clone, Copy, PartialEq, Eq, Structural)]
pub struct VersionNumbers {
    pub major: u64,
    pub minor: u64,
    pub patch: u64,
}

/// Major, minor and patch numbers of the version `semver::Version::parse`
/// reads from `text`, or none when it rejects the text.
pub uninterp spec fn semver_numbers(text: Seq<char>) -> Option<(u64, u64, u64)>;

/// Relies on `semver::Version::parse`: keeps the major, minor and patch
/// numbers of the parsed version.
#[verifier::external_body]
fn parse_version(text: &str) -> (r: Option<VersionNumbers>)
    ensures
        r is Some <==> semver_numbers(text@) is Some,
        r matches Some(v) ==> semver_numbers(text@) == Some((v.major, v.minor, v.patch)),
{
    match semver::Version::parse(text) {
        Ok(v) => Some(VersionNumbers { major: v.major, minor: v.minor, patch: v.patch }),
        Err(_) => None,
    }
}

/// `a` is strictly newer than `b`: major, minor, patch compared as integers,
/// in that order.
pub open spec fn newer(a: (u64, u64, u64), b: (u64, u64, u64)) -> bool {
    a.0 > b.0 || (a.0 == b.0 && (a.1 > b.1 || (a.1 == b.1 && a.2 > b.2)))
}

/// Whether version `a` is strictly newer than version `b`.
pub fn is_newer_version(a: VersionNumbers, b: VersionNumbers) -> (r: bool)
    ensures
        r == newer((a.major, a.minor, a.patch), (b.major, b.minor, b.patch)),
{
    a.major > b.major || (a.major == b.major && (a.minor > b.minor || (a.minor == b.minor && a.patch > b.patch)))
}

/// Whether version text `remote` names a strictly newer version than
/// `current`; false when either does not parse.
pub fn is_newer(remote: &str, current: &str) -> (r: bool)
    ensures
        r == match (semver_numbers(remote@), semver_numbers(current@)) {
            (Some(a), Some(b)) => newer(a, b),
            _ => false,
        },
{
    match (parse_version(remote), parse_version(current)) {
        (Some(a), Some(b)) => is_newer_version(a, b),
        _ => false,
    }
}

/// Newer-than is a strict order: never reflexive, never both ways, transitive.
pub proof fn lemma_newer_strict_order(a: (u64, u64, u64), b: (u64, u64, u64), c: (u64, u64, u64))
    ensures
        !newer(a, a),
        newer(a, b) ==> !newer(b, a),
        newer(a, b) && newer(b, c) ==> newer(a, c),
        a != b ==> newer(a, b) || newer(b, a),
{
}

/// Text of version numbers, `major.minor.patch`.
pub open spec fn version_text(v: VersionNumbers) -> Seq<char> {
    decimal(v.major as nat) + "."@ + decimal(v.minor as nat) + "."@ + decimal(v.patch as nat)
}

/// Renders version numbers as `major.minor.patch`.
pub fn version_string(v: VersionNumbers) -> (r: String)
    ensures
        r@ == version_text(v),
{
    let mut s = decimal_string(v.major);
    s.append(".");
    let minor = decimal_string(v.minor);
    s.append(minor.as_str());
    s.append(".");
    let patch = decimal_string(v.patch);
    s.append(patch.as_str());
    s
}

/// An available update.
#[derive(Debug)]
pub struct UpdateInfo {
    /// Version text, e.g. `0.4.0`.
    pub version: String,
    /// Where to download the binary.
    pub download_url: String,
    /// Expected size in bytes, when known.
    pub size: Option<u64>,
}

/// A downloadable file of a release.
#[derive(Debug)]
pub struct ReleaseAsset {
    pub name: String,
    pub browser_download_url: String,
    pub size: u64,
}

/// Why a release could not be evaluated.
#[derive(Debug, Clone, Copy, PartialEq, Eq, Structural)]
pub enum ReleaseError {
    /// The built-in version does not parse.
    InvalidCurrentVersion,
    /// The newer release carries no binary for this platform.
    NoAsset,
}

/// Index of the first asset named `name`.
pub open spec fn first_asset(assets: Seq<ReleaseAsset>, name: Seq<char>) -> Option<int> {
    if exists|i: int| 0 <= i < assets.len() && #[trigger] assets[i].name@ == name {
        Some(choose|i: int| 0 <= i < assets.len() && #[trigger] assets[i].name@ == name
            && forall|j: int| 0 <= j < i ==> #[trigger] assets[j].name@ != name)
    } else {
        None
    }
}

fn find_asset(assets: &Vec<ReleaseAsset>, name: &str) -> (r: Option<usize>)
    ensures
        match r {
            Some(i) => i < assets@.len() && assets@[i as int].name@ == name@ && forall|j: int|
                0 <= j < i ==> #[trigger] assets@[j].name@ != name@,
            None => forall|j: int| 0 <= j < assets@.len() ==> #[trigger] assets@[j].name@ != name@,
        },
{
    let mut i: usize = 0;
    while i < assets.len()
        invariant
            i <= assets@.len(),
            forall|j: int| 0 <= j < i ==> #[trigger] assets@[j].name@ != name@,
        decreases assets@.len() - i,
    {
        if same_text(assets[i].name.as_str(), name) {
            return Some(i);
        }
        i = i + 1;
    }
    None
}

/// Decides on the latest release of the feed: `Some` exactly when its tag,
/// with leading `v`s removed, parses to a version strictly newer than
/// `current`; the update then points at the first asset named `asset_name`.
pub fn evaluate_release(current: &str, tag_name: &str, assets: &Vec<ReleaseAsset>, asset_name: &str) -> (r: Result<Option<UpdateInfo>, ReleaseError>)
    ensures
        semver_numbers(current@) is None ==> r == Err::<Option<UpdateInfo>, ReleaseError>(ReleaseError::InvalidCurrentVersion),
        semver_numbers(current@) is Some ==> match semver_numbers(strip_leading(tag_name@, 'v')) {
            Some(remote) => if newer(remote, semver_numbers(current@)->Some_0) {
                match r {
                    Ok(Some(info)) => exists|i: int| 0 <= i < assets@.len()
                        && #[trigger] assets@[i].name@ == asset_name@
                        && (forall|j: int| 0 <= j < i ==> #[trigger] assets@[j].name@ != asset_name@)
                        && info.download_url@ == assets@[i].browser_download_url@
                        && info.size == Some(assets@[i].size)
                        && info.version@ == version_text(VersionNumbers { major: remote.0, minor: remote.1, patch: remote.2 }),
                    Err(e) => e == ReleaseError::NoAsset && forall|j: int| 0 <= j < assets@.len() ==> #[trigger] assets@[j].name@ != asset_name@,
                    Ok(None) => false,
                }
            } else {
                r matches Ok(None)
            },
            None => r matches Ok(None),
        },
{
    let stripped = trim_start_char(tag_name, 'v');
    let cur = match parse_version(current) {
        Some(v) => v,
        None => return Err(ReleaseError::InvalidCurrentVersion),
    };
    let remote = match parse_version(stripped.as_str()) {
        Some(v) => v,
        None => return Ok(None),
    };
    if !is_newer_version(remote, cur) {
        return Ok(None);
    }
    match find_asset(assets, asset_name) {
        Some(i) => Ok(Some(UpdateInfo {
            version: version_string(remote),
            download_url: to_owned_text(assets[i].browser_download_url.as_str()),
            size: Some(assets[i].size),
        })),
        None => Err(ReleaseError::NoAsset),
    }
}

/// Whether a finished download is kept: its size must match the advertised
/// size, when one was advertised.
pub fn download_size_ok(expected: Option<u64>, actual: u64) -> (r: bool)
    ensures
        r == match expected {
            Some(e) => e == actual,
            None => true,
        },
{
    match expected {
        Some(e) => e == actual,
        None => true,
    }
}

/// Where the updater keeps its files.
#[derive(Debug)]
pub struct UpdatePaths {
    /// `update` under the data directory.
    pub update_dir: String,
    /// `pending.json` in the update directory.
    pub pending_marker: String,
    /// `<binary>.new` in the update directory.
    pub staged_exe: String,
}

impl UpdatePaths {
    /// The updater's paths under `data_dir` for the binary named `binary`.
    pub fn new(data_dir: &str, binary: &str, platform: Platform) -> (r: UpdatePaths)
        ensures
            r.update_dir@ == joined(data_dir@, "update"@, platform),
            r.pending_marker@ == joined(r.update_dir@, "pending.json"@, platform),
            r.staged_exe@ == joined(r.update_dir@, binary@ + ".new"@, platform),
    {
        let update_dir = join_path(data_dir, "update", platform);
        let pending_marker = join_path(update_dir.as_str(), "pending.json", platform);
        let staged_name = concat(binary, ".new");
        let staged_exe = join_path(update_dir.as_str(), staged_name.as_str(), platform);
        UpdatePaths { update_dir, pending_marker, staged_exe }
    }
}

/// Backup location of the running binary, kept for manual rollback.
pub fn backup_path(current_exe: &str) -> (r: String)
    ensures
        r@ == current_exe@ + ".bak"@,
{
    concat(current_exe, ".bak")
}

/// Content of the pending-update marker.
#[derive(Debug)]
pub struct PendingUpdate {
    pub version: String,
    pub exe_path: String,
    pub downloaded_at: String,
}

impl PendingUpdate {
    /// The marker for a staged download of `info`.
    pub fn new(info: &UpdateInfo, staged_exe: &str, downloaded_at: String) -> (r: PendingUpdate)
        ensures
            r.version@ == info.version@,
            r.exe_path@ == staged_exe@,
            r.downloaded_at@ == downloaded_at@,
    {
        PendingUpdate {
            version: to_owned_text(info.version.as_str()),
            exe_path: to_owned_text(staged_exe),
            downloaded_at,
        }
    }
}

/// Update-tracking state of an interactive front end.
#[derive(Debug)]
pub struct UpdateState {
    pub available: Option<UpdateInfo>,
    pub downloaded_path: Option<String>,
}

impl Default for UpdateState {
    fn default() -> (r: UpdateState)
        ensures
            r.available is None,
            r.downloaded_path is None,
    {
        UpdateState { available: None, downloaded_path: None }
    }
}

/// What start-up does about a pending update, before anything else.
#[derive(Debug, Clone, Copy, PartialEq, Eq, Structural)]
pub enum PendingDecision {
    /// No marker: nothing to apply.
    NothingPending,
    /// The marker names a staged binary that is gone: remove the marker only.
    DropMarker,
    /// Perform the swap.
    Swap,
}

/// Decides from whether the marker and the staged binary exist.
pub fn pending_decision(marker_exists: bool, staged_exists: bool) -> (r: PendingDecision)
    ensures
        r == if !marker_exists {
            PendingDecision::NothingPending
        } else if !staged_exists {
            PendingDecision::DropMarker
        } else {
            PendingDecision::Swap
        },
{
    if !marker_exists {
        PendingDecision::NothingPending
    } else if !staged_exists {
        PendingDecision::DropMarker
    } else {
        PendingDecision::Swap
    }
}

/// Where the swap procedure stands.
#[derive(Debug, Clone, Copy, PartialEq, Eq, Structural)]
pub enum SwapPhase {
    /// Removing a stale backup.
    ClearBackup,
    /// Renaming the running binary to its backup.
    Backup,
    /// Renaming the staged binary into place.
    Install,
    /// Installed; removing the marker.
    RemoveMarkerAfterInstall,
    /// Backup failed; removing the marker.
    AbortRemoveMarker,
    /// Backup failed; removing the staged binary.
    AbortRemoveStaged,
    /// Install failed; renaming the backup back into place.
    Restore,
    /// Restored; removing the marker.
    RemoveMarkerAfterRestore,
    /// Over.
    Finished,
}

/// The file operation to perform next, or the end of the procedure.
#[derive(Debug)]
pub enum SwapAction {
    /// Remove this file; a failure is tolerated.
    Remove(String),
    /// Rename a file.
    Rename(String, String),
    /// The procedure is over; whether the new binary is in place.
    Finish(bool),
    /// Both install and restore failed: log at error level and exit the
    /// process so that external supervision recovers.
    Fatal,
}

/// Kinds of swap actions, for stating the procedure.
#[derive(Debug, Clone, Copy, PartialEq, Eq, Structural)]
pub enum SwapOp {
    RemoveBackup,
    RenameCurrentToBackup,
    RenameStagedToCurrent,
    RenameBackupToCurrent,
    RemoveMarker,
    RemoveStaged,
    Finish(bool),
    Fatal,
}

/// Transition of the swap procedure: from a phase and the outcome of its
/// operation, the next phase and its operation.
pub open spec fn swap_transition(phase: SwapPhase, ok: bool) -> (SwapPhase, SwapOp) {
    match phase {
        SwapPhase::ClearBackup => (SwapPhase::Backup, SwapOp::RenameCurrentToBackup),
        SwapPhase::Backup => if ok {
            (SwapPhase::Install, SwapOp::RenameStagedToCurrent)
        } else {
            (SwapPhase::AbortRemoveMarker, SwapOp::RemoveMarker)
        },
        SwapPhase::AbortRemoveMarker => (SwapPhase::AbortRemoveStaged, SwapOp::RemoveStaged),
        SwapPhase::AbortRemoveStaged => (SwapPhase::Finished, SwapOp::Finish(false)),
        SwapPhase::Install => if ok {
            (SwapPhase::RemoveMarkerAfterInstall, SwapOp::RemoveMarker)
        } else {
            (SwapPhase::Restore, SwapOp::RenameBackupToCurrent)
        },
        SwapPhase::RemoveMarkerAfterInstall => (SwapPhase::Finished, SwapOp::Finish(true)),
        SwapPhase::Restore => if ok {
            (SwapPhase::RemoveMarkerAfterRestore, SwapOp::RemoveMarker)
        } else {
            (SwapPhase::Finished, SwapOp::Fatal)
        },
        SwapPhase::RemoveMarkerAfterRestore => (SwapPhase::Finished, SwapOp::Finish(false)),
        SwapPhase::Finished => (SwapPhase::Finished, SwapOp::Finish(false)),
    }
}

/// The binary swap, one file operation at a time.
#[derive(Debug)]
pub struct Swap {
    pub current_exe: String,
    pub backup_exe: String,
    pub staged_exe: String,
    pub marker: String,
    pub phase: SwapPhase,
}

/// The action that performs an operation on this swap's files.
pub open spec fn performs(s: Swap, op: SwapOp, a: SwapAction) -> bool {
    match op {
        SwapOp::RemoveBackup => a matches SwapAction::Remove(p) && p@ == s.backup_exe@,
        SwapOp::RenameCurrentToBackup => a matches SwapAction::Rename(f, t) && f@ == s.current_exe@ && t@ == s.backup_exe@,
        SwapOp::RenameStagedToCurrent => a matches SwapAction::Rename(f, t) && f@ == s.staged_exe@ && t@ == s.current_exe@,
        SwapOp::RenameBackupToCurrent => a matches SwapAction::Rename(f, t) && f@ == s.backup_exe@ && t@ == s.current_exe@,
        SwapOp::RemoveMarker => a matches SwapAction::Remove(p) && p@ == s.marker@,
        SwapOp::RemoveStaged => a matches SwapAction::Remove(p) && p@ == s.staged_exe@,
        SwapOp::Finish(b) => a == SwapAction::Finish(b),
        SwapOp::Fatal => a is Fatal,
    }
}

impl Swap {
    /// Starts the swap; the first action removes any stale backup.
    pub fn start(current_exe: &str, staged_exe: &str, marker: &str) -> (r: (Swap, SwapAction))
        ensures
            r.0.current_exe@ == current_exe@,
            r.0.backup_exe@ == current_exe@ + ".bak"@,
            r.0.staged_exe@ == staged_exe@,
            r.0.marker@ == marker@,
            r.0.phase == SwapPhase::ClearBackup,
            performs(r.0, SwapOp::RemoveBackup, r.1),
    {
        let backup = backup_path(current_exe);
        let action = SwapAction::Remove(to_owned_text(backup.as_str()));
        (Swap {
            current_exe: to_owned_text(current_exe),
            backup_exe: backup,
            staged_exe: to_owned_text(staged_exe),
            marker: to_owned_text(marker),
            phase: SwapPhase::ClearBackup,
        }, action)
    }

    fn action_for(&self, op: SwapOp) -> (a: SwapAction)
        ensures
            performs(*self, op, a),
    {
        match op {
            SwapOp::RemoveBackup => SwapAction::Remove(to_owned_text(self.backup_exe.as_str())),
            SwapOp::RenameCurrentToBackup => SwapAction::Rename(to_owned_text(self.current_exe.as_str()), to_owned_text(self.backup_exe.as_str())),
            SwapOp::RenameStagedToCurrent => SwapAction::Rename(to_owned_text(self.staged_exe.as_str()), to_owned_text(self.current_exe.as_str())),
            SwapOp::RenameBackupToCurrent => SwapAction::Rename(to_owned_text(self.backup_exe.as_str()), to_owned_text(self.current_exe.as_str())),
            SwapOp::RemoveMarker => SwapAction::Remove(to_owned_text(self.marker.as_str())),
            SwapOp::RemoveStaged => SwapAction::Remove(to_owned_text(self.staged_exe.as_str())),
            SwapOp::Finish(b) => SwapAction::Finish(b),
            SwapOp::Fatal => SwapAction::Fatal,
        }
    }

    /// Given whether the last action succeeded, moves on and returns the next action.
    pub fn next(&mut self, ok: bool) -> (a: SwapAction)
        ensures
            final(self).phase == swap_transition(old(self).phase, ok).0,
            final(self).current_exe == old(self).current_exe,
            final(self).backup_exe == old(self).backup_exe,
            final(self).staged_exe == old(self).staged_exe,
            final(self).marker == old(self).marker,
            performs(*old(self), swap_transition(old(self).phase, ok).1, a),
    {
        let (phase, op) = match self.phase {
            SwapPhase::ClearBackup => (SwapPhase::Backup, SwapOp::RenameCurrentToBackup),
            SwapPhase::Backup => if ok {
                (SwapPhase::Install, SwapOp::RenameStagedToCurrent)
            } else {
                (SwapPhase::AbortRemoveMarker, SwapOp::RemoveMarker)
            },
            SwapPhase::AbortRemoveMarker => (SwapPhase::AbortRemoveStaged, SwapOp::RemoveStaged),
            SwapPhase::AbortRemoveStaged => (SwapPhase::Finished, SwapOp::Finish(false)),
            SwapPhase::Install => if ok {
                (SwapPhase::RemoveMarkerAfterInstall, SwapOp::RemoveMarker)
            } else {
                (SwapPhase::Restore, SwapOp::RenameBackupToCurrent)
            },
            SwapPhase::RemoveMarkerAfterInstall => (SwapPhase::Finished, SwapOp::Finish(true)),
            SwapPhase::Restore => if ok {
                (SwapPhase::RemoveMarkerAfterRestore, SwapOp::RemoveMarker)
            } else {
                (SwapPhase::Finished, SwapOp::Fatal)
            },
            SwapPhase::RemoveMarkerAfterRestore => (SwapPhase::Finished, SwapOp::Finish(false)),
            SwapPhase::Finished => (SwapPhase::Finished, SwapOp::Finish(false)),
        };
        let a = self.action_for(op);
        self.phase = phase;
        a
    }
}

/// The swap reports success only right after removing the marker, and it
/// removes the marker in that way only after the staged binary was renamed
/// into place: a binary started after a successful swap finds no marker
/// (unless its removal failed).
pub proof fn lemma_success_follows_marker_removal(p: SwapPhase, ok: bool, q: SwapPhase, ok2: bool)
    ensures
        swap_transition(p, ok).1 == SwapOp::Finish(true) ==> p == SwapPhase::RemoveMarkerAfterInstall,
        swap_transition(q, ok2).0 == SwapPhase::RemoveMarkerAfterInstall ==> q == SwapPhase::Install && ok2
            && swap_transition(q, ok2).1 == SwapOp::RemoveMarker,
        swap_transition(p, ok).1 == SwapOp::RenameStagedToCurrent ==> p == SwapPhase::Backup && ok,
{
}

/// A failed backup leaves the running binary alone and never installs.
pub proof fn lemma_backup_failure_aborts(p: SwapPhase)
    ensures
        swap_transition(SwapPhase::Backup, false) == (SwapPhase::AbortRemoveMarker, SwapOp::RemoveMarker),
        swap_transition(SwapPhase::AbortRemoveMarker, true).1 == SwapOp::RemoveStaged,
        swap_transition(SwapPhase::AbortRemoveStaged, true).1 == SwapOp::Finish(false),
{
}

} // verus!
