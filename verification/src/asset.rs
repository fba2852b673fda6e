//! Announcement clips: where the clip of a display name is kept, and whether it
//! has to be synthesized first.

use crate::failure::Failure;
use vstd::prelude::*;
use vstd::string::*;

verus! {

/// How the clip of a display name is obtained.
#[derive(Clone, Copy, Debug, PartialEq, Eq, Structural)]
pub enum AssetAction {
    /// The clip is on storage: it is used as it is, and no process is started.
    UseCached,
    /// The clip is missing: the synthesizer is run once to create it.
    Synthesize,
}

/// The path of the clip for a display name: the storage root, the name as it
/// is, and the extension.
pub open spec fn asset_path_of(display_name: Seq<char>) -> Seq<char> {
    "/config/audio/"@ + display_name + ".wav"@
}

/// The action for a clip that does or does not exist.
pub open spec fn asset_action(exists: bool) -> AssetAction {
    if exists {
        AssetAction::UseCached
    } else {
        AssetAction::Synthesize
    }
}

/// The action that resolving `display_name` takes on a store holding `stored`.
pub open spec fn resolution_in(stored: Set<Seq<char>>, display_name: Seq<char>) -> AssetAction {
    asset_action(stored.contains(asset_path_of(display_name)))
}

/// The store after resolving `display_name`: a synthesizer run that succeeds
/// adds the clip, and nothing else changes the store.
pub open spec fn store_after_resolution(
    stored: Set<Seq<char>>,
    display_name: Seq<char>,
    synthesis_succeeds: bool,
) -> Set<Seq<char>> {
    if resolution_in(stored, display_name) == AssetAction::Synthesize && synthesis_succeeds {
        stored.insert(asset_path_of(display_name))
    } else {
        stored
    }
}

/// Whether a synthesizer run succeeded: it was started and exited with zero.
pub open spec fn synthesis_ok(exit_code: Option<i32>) -> bool {
    exit_code == Some(0i32)
}

/// The path under which the clip of `display_name` is kept.
pub fn asset_path(display_name: &str) -> (path: String)
    ensures
        path@ == asset_path_of(display_name@),
{
    let root = String::from_str("/config/audio/");
    let stem = root.concat(display_name);
    stem.concat(".wav")
}

/// Decides how to obtain a clip, given whether its path exists on storage.
pub fn plan_resolution(exists: bool) -> (action: AssetAction)
    ensures
        action == asset_action(exists),
{
    if exists {
        AssetAction::UseCached
    } else {
        AssetAction::Synthesize
    }
}

/// Judges a synthesizer run from its exit code (`None` where the process could
/// not be started, was cut off after a timeout, or gave no code). A failed run
/// abandons the request; it is not tried again.
pub fn check_synthesis(exit_code: Option<i32>) -> (result: Result<(), Failure>)
    ensures
        result is Ok <==> synthesis_ok(exit_code),
        result is Err ==> result == Err::<(), Failure>(Failure::SynthesisFailure),
{
    match exit_code {
        Some(code) => {
            if code == 0 {
                Ok(())
            } else {
                Err(Failure::SynthesisFailure)
            }
        },
        None => Err(Failure::SynthesisFailure),
    }
}

/// A text that may be missing, as a sequence of characters.
pub open spec fn text_of(text: Option<&str>) -> Option<Seq<char>> {
    match text {
        Some(text) => Some(text@),
        None => None,
    }
}

/// Where a submitted clip is stored: under the name given in the command's
/// arguments, or under the attachment's file name if there are none. Nothing
/// is stored outside the submission channel or without an attachment.
pub open spec fn submission_path_of(
    channel_name: Option<Seq<char>>,
    arguments: Seq<char>,
    attachment_name: Option<Seq<char>>,
) -> Option<Seq<char>> {
    if channel_name == Some("announcer-bot-submissions"@) && attachment_name is Some {
        Some(
            asset_path_of(
                if arguments.len() == 0 {
                    attachment_name->0
                } else {
                    arguments
                },
            ),
        )
    } else {
        None
    }
}

/// Decides where a clip submitted by command is stored, if anywhere, from the
/// name of the channel the command came in (`None` if it is unknown), the rest
/// of the command line, and the file name of the first attachment.
pub fn submission_path(
    channel_name: Option<&str>,
    arguments: &str,
    attachment_name: Option<&str>,
) -> (path: Option<String>)
    ensures
        match path {
            Some(path) => Some(path@),
            None => None,
        } == submission_path_of(text_of(channel_name), arguments@, text_of(attachment_name)),
{
    match (channel_name, attachment_name) {
        (Some(channel_name), Some(attachment_name)) => {
            let given = String::from_str(channel_name);
            let expected = String::from_str("announcer-bot-submissions");
            if given.eq(&expected) {
                if arguments.is_empty() {
                    Some(asset_path(attachment_name))
                } else {
                    Some(asset_path(arguments))
                }
            } else {
                None
            }
        },
        _ => None,
    }
}

/// Resolving a name twice, with nothing deleted in between, runs the
/// synthesizer at most once: after a hit, or after a run that succeeded, the
/// second resolution is a hit and leaves the store as it is.
pub proof fn lemma_second_resolution_is_a_hit(
    stored: Set<Seq<char>>,
    display_name: Seq<char>,
    synthesis_succeeds: bool,
)
    requires
        resolution_in(stored, display_name) == AssetAction::Synthesize ==> synthesis_succeeds,
    ensures
        resolution_in(
            store_after_resolution(stored, display_name, synthesis_succeeds),
            display_name,
        ) == AssetAction::UseCached,
        store_after_resolution(
            store_after_resolution(stored, display_name, synthesis_succeeds),
            display_name,
            synthesis_succeeds,
        ) == store_after_resolution(stored, display_name, synthesis_succeeds),
        resolution_in(stored, display_name) == AssetAction::UseCached ==> store_after_resolution(
            stored,
            display_name,
            synthesis_succeeds,
        ) == stored,
{
}

/// Clips are never removed by a resolution: what was stored stays stored.
pub proof fn lemma_resolution_keeps_clips(
    stored: Set<Seq<char>>,
    display_name: Seq<char>,
    synthesis_succeeds: bool,
    path: Seq<char>,
)
    requires
        stored.contains(path),
    ensures
        store_after_resolution(stored, display_name, synthesis_succeeds).contains(path),
{
}

/// The path is keyed by the name exactly: different names have different paths.
pub proof fn lemma_asset_path_injective(first: Seq<char>, second: Seq<char>)
    requires
        asset_path_of(first) == asset_path_of(second),
    ensures
        first == second,
{
    let root = "/config/audio/"@;
    let extension = ".wav"@;
    let a = root + first + extension;
    let b = root + second + extension;
    assert(a.len() == root.len() + first.len() + extension.len());
    assert(b.len() == root.len() + second.len() + extension.len());
    assert(first.len() == second.len());
    assert forall|i: int| 0 <= i < first.len() implies first[i] == second[i] by {
        assert(a[root.len() + i] == first[i]);
        assert(b[root.len() + i] == second[i]);
    }
    assert(first =~= second);
}

} // verus!
