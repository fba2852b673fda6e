//! One announcement, step by step. The caller performs each command against the
//! voice backend, the storage or an outside process, and reports what came of
//! it; every decision in between is taken here.

use crate::asset::{
    asset_action, asset_path, asset_path_of, check_synthesis, plan_resolution, synthesis_ok,
    AssetAction,
};
use crate::failure::Failure;
use crate::manager::{
    after_join, after_playback, after_prepare, playback_to_stop, state_in, ConnectionManager,
    GuildVoiceConnection, PlaybackStart,
};
use crate::resolver::{resolution_of, resolve, MemberRecord};
use vstd::prelude::*;
use vstd::string::*;

verus! {

/// The announcement that is being made.
#[derive(Debug, PartialEq, Eq)]
pub struct Request {
    pub guild_id: u64,
    pub channel_id: u64,
    /// The display name that is spoken.
    pub name: String,
}

/// Where an announcement stands.
#[derive(Clone, Copy, Debug, PartialEq, Eq, Structural)]
pub enum Stage {
    /// The join has been asked for.
    Joining,
    /// The storage is being asked whether the clip exists.
    CheckingAsset,
    /// The synthesizer is creating the clip.
    Synthesizing,
    /// The decoder is opening the clip.
    Decoding,
    /// The clip streams: the announcement is made.
    Played,
    /// The announcement was given up.
    Abandoned(Failure),
}

/// What the caller reports after carrying out a command.
#[derive(Clone, Copy, Debug, PartialEq, Eq, Structural)]
pub enum Report {
    /// Whether the backend let the announcer into the channel.
    Joined(bool),
    /// Whether the clip's path exists on storage.
    AssetFound(bool),
    /// The synthesizer's exit code, `None` if it could not be run.
    Synthesized(Option<i32>),
    /// The handle of the source that the decoder opened, `None` if it failed.
    Decoded(Option<u64>),
}

/// What the caller has to do next.
#[derive(Debug, PartialEq, Eq)]
pub enum Command {
    /// Stop the playback `stop_first`, if there is one, then join the channel.
    Join { guild_id: u64, channel_id: u64, stop_first: Option<u64> },
    /// Find out whether `path` exists.
    CheckAsset { path: String },
    /// Run the synthesizer on `text`, writing to `path`, and wait for it.
    Synthesize { text: String, path: String },
    /// Open the clip at `path` as a streamable source.
    Decode { path: String },
    /// Stream the source `handle` into the guild's connection, in place of
    /// `superseded` if that is still streaming.
    Play { guild_id: u64, handle: u64, superseded: Option<u64> },
}

/// A command with its texts as sequences of characters.
pub enum CommandView {
    Join { guild_id: u64, channel_id: u64, stop_first: Option<u64> },
    CheckAsset { path: Seq<char> },
    Synthesize { text: Seq<char>, path: Seq<char> },
    Decode { path: Seq<char> },
    Play { guild_id: u64, handle: u64, superseded: Option<u64> },
}

impl View for Command {
    type V = CommandView;

    open spec fn view(&self) -> CommandView {
        match *self {
            Command::Join { guild_id, channel_id, stop_first } => CommandView::Join {
                guild_id,
                channel_id,
                stop_first,
            },
            Command::CheckAsset { path } => CommandView::CheckAsset { path: path@ },
            Command::Synthesize { text, path } => CommandView::Synthesize {
                text: text@,
                path: path@,
            },
            Command::Decode { path } => CommandView::Decode { path: path@ },
            Command::Play { guild_id, handle, superseded } => CommandView::Play {
                guild_id,
                handle,
                superseded,
            },
        }
    }
}

/// The view of a command that may be missing.
pub open spec fn command_view(command: Option<Command>) -> Option<CommandView> {
    match command {
        Some(command) => Some(command@),
        None => None,
    }
}

/// The result of one step: the stage reached, and the next command if the
/// announcement goes on.
#[derive(Debug, PartialEq, Eq)]
pub struct Step {
    pub stage: Stage,
    pub command: Option<Command>,
}

/// Whether the announcement has come to an end.
pub open spec fn is_finished(stage: Stage) -> bool {
    stage is Played || stage is Abandoned
}

/// The stage that follows `stage` on `report`. A report that does not answer
/// the stage's command changes nothing.
pub open spec fn stage_after(
    connections: Map<u64, GuildVoiceConnection>,
    guild_id: u64,
    stage: Stage,
    report: Report,
) -> Stage {
    match (stage, report) {
        (Stage::Joining, Report::Joined(joined)) => if joined {
            Stage::CheckingAsset
        } else {
            Stage::Abandoned(Failure::ConnectionFailure)
        },
        (Stage::CheckingAsset, Report::AssetFound(exists)) => match asset_action(exists) {
            AssetAction::UseCached => Stage::Decoding,
            AssetAction::Synthesize => Stage::Synthesizing,
        },
        (Stage::Synthesizing, Report::Synthesized(exit_code)) => if synthesis_ok(exit_code) {
            Stage::Decoding
        } else {
            Stage::Abandoned(Failure::SynthesisFailure)
        },
        (Stage::Decoding, Report::Decoded(Some(_))) => if connections.contains_key(guild_id) {
            Stage::Played
        } else {
            Stage::Abandoned(Failure::ConnectionFailure)
        },
        (Stage::Decoding, Report::Decoded(None)) => Stage::Abandoned(Failure::DecodeFailure),
        _ => stage,
    }
}

/// The registry after `report` at `stage`: a join is recorded as it was
/// answered, a decoded source starts playing if the guild is still connected,
/// and nothing else touches the registry.
pub open spec fn registry_after(
    connections: Map<u64, GuildVoiceConnection>,
    guild_id: u64,
    channel_id: u64,
    stage: Stage,
    report: Report,
) -> Map<u64, GuildVoiceConnection> {
    match (stage, report) {
        (Stage::Joining, Report::Joined(joined)) => after_join(
            connections,
            guild_id,
            channel_id,
            joined,
        ),
        (Stage::Decoding, Report::Decoded(Some(handle))) => after_playback(
            connections,
            guild_id,
            handle,
        ),
        _ => connections,
    }
}

/// The command that follows `report` at `stage`, if the announcement goes on.
pub open spec fn command_after(
    connections: Map<u64, GuildVoiceConnection>,
    guild_id: u64,
    name: Seq<char>,
    stage: Stage,
    report: Report,
) -> Option<CommandView> {
    match (stage, stage_after(connections, guild_id, stage, report), report) {
        (Stage::Joining, Stage::CheckingAsset, _) => Some(
            CommandView::CheckAsset { path: asset_path_of(name) },
        ),
        (Stage::CheckingAsset, Stage::Synthesizing, _) => Some(
            CommandView::Synthesize { text: name, path: asset_path_of(name) },
        ),
        (Stage::CheckingAsset, Stage::Decoding, _) => Some(
            CommandView::Decode { path: asset_path_of(name) },
        ),
        (Stage::Synthesizing, Stage::Decoding, _) => Some(
            CommandView::Decode { path: asset_path_of(name) },
        ),
        (Stage::Decoding, Stage::Played, Report::Decoded(Some(handle))) => Some(
            CommandView::Play {
                guild_id,
                handle,
                superseded: connections[guild_id].playback_handle,
            },
        ),
        _ => None,
    }
}

/// Opens an announcement of a member in a channel, from the outcome of the
/// member lookup. A member who could not be looked up abandons it before
/// anything is touched. Otherwise playback in another channel of the guild is
/// given up, and the first command is the join.
pub fn begin(
    manager: &mut ConnectionManager,
    guild_id: u64,
    channel_id: u64,
    lookup: Option<MemberRecord>,
) -> (result: Result<(Request, Command), Failure>)
    ensures
        resolution_of(lookup) matches Err(failure) ==> result == Err::<(Request, Command), Failure>(
            failure,
        ) && final(manager)@ == old(manager)@,
        resolution_of(lookup) matches Ok(name) ==> {
            &&& result matches Ok((request, command))
            &&& request.guild_id == guild_id
            &&& request.channel_id == channel_id
            &&& request.name@ == name
            &&& command@ == (CommandView::Join {
                guild_id,
                channel_id,
                stop_first: playback_to_stop(old(manager)@, guild_id, channel_id),
            })
            &&& final(manager)@ == after_prepare(old(manager)@, guild_id, channel_id)
        },
{
    match resolve(lookup) {
        Err(failure) => Err(failure),
        Ok(name) => {
            let stop_first = manager.prepare_join(guild_id, channel_id);
            Ok(
                (
                    Request { guild_id, channel_id, name },
                    Command::Join { guild_id, channel_id, stop_first },
                ),
            )
        },
    }
}

/// Takes one step: records `report` in the registry and says how the
/// announcement goes on.
pub fn advance(
    manager: &mut ConnectionManager,
    request: &Request,
    stage: Stage,
    report: Report,
) -> (step: Step)
    ensures
        step.stage == stage_after(old(manager)@, request.guild_id, stage, report),
        command_view(step.command) == command_after(
            old(manager)@,
            request.guild_id,
            request.name@,
            stage,
            report,
        ),
        final(manager)@ == registry_after(
            old(manager)@,
            request.guild_id,
            request.channel_id,
            stage,
            report,
        ),
{
    match (stage, report) {
        (Stage::Joining, Report::Joined(joined)) => {
            manager.complete_join(request.guild_id, request.channel_id, joined);
            if joined {
                Step {
                    stage: Stage::CheckingAsset,
                    command: Some(Command::CheckAsset { path: asset_path(request.name.as_str()) }),
                }
            } else {
                Step { stage: Stage::Abandoned(Failure::ConnectionFailure), command: None }
            }
        },
        (Stage::CheckingAsset, Report::AssetFound(exists)) => {
            let path = asset_path(request.name.as_str());
            match plan_resolution(exists) {
                AssetAction::UseCached => Step {
                    stage: Stage::Decoding,
                    command: Some(Command::Decode { path }),
                },
                AssetAction::Synthesize => Step {
                    stage: Stage::Synthesizing,
                    command: Some(Command::Synthesize { text: request.name.clone(), path }),
                },
            }
        },
        (Stage::Synthesizing, Report::Synthesized(exit_code)) => {
            match check_synthesis(exit_code) {
                Ok(()) => Step {
                    stage: Stage::Decoding,
                    command: Some(Command::Decode { path: asset_path(request.name.as_str()) }),
                },
                Err(failure) => Step { stage: Stage::Abandoned(failure), command: None },
            }
        },
        (Stage::Decoding, Report::Decoded(Some(handle))) => {
            match manager.start_playback(request.guild_id, handle) {
                PlaybackStart::Started { superseded } => Step {
                    stage: Stage::Played,
                    command: Some(
                        Command::Play { guild_id: request.guild_id, handle, superseded },
                    ),
                },
                PlaybackStart::NotConnected => Step {
                    stage: Stage::Abandoned(Failure::ConnectionFailure),
                    command: None,
                },
            }
        },
        (Stage::Decoding, Report::Decoded(None)) => Step {
            stage: Stage::Abandoned(Failure::DecodeFailure),
            command: None,
        },
        _ => Step { stage, command: None },
    }
}

/// Audio starts only on a `Play` command: a step takes a guild that is not
/// playing into the playing state exactly when it issues that command, so
/// whatever was stopped for a channel switch stays stopped until the new clip
/// has been joined for, found or synthesized, and decoded.
pub proof fn lemma_playing_only_on_play_command(
    connections: Map<u64, GuildVoiceConnection>,
    guild_id: u64,
    channel_id: u64,
    name: Seq<char>,
    stage: Stage,
    report: Report,
)
    requires
        !(state_in(connections, guild_id) is Playing),
    ensures
        state_in(registry_after(connections, guild_id, channel_id, stage, report), guild_id)
            is Playing <==> command_after(connections, guild_id, name, stage, report) matches Some(
            CommandView::Play { .. },
        ),
        command_after(connections, guild_id, name, stage, report) matches Some(
            CommandView::Play { .. },
        ) ==> stage == Stage::Decoding && stage_after(connections, guild_id, stage, report)
            == Stage::Played,
{
}

/// An announcement that has ended stays ended: no report moves it, issues a
/// command or touches the registry.
pub proof fn lemma_finished_is_final(
    connections: Map<u64, GuildVoiceConnection>,
    guild_id: u64,
    channel_id: u64,
    name: Seq<char>,
    stage: Stage,
    report: Report,
)
    requires
        is_finished(stage),
    ensures
        stage_after(connections, guild_id, stage, report) == stage,
        command_after(connections, guild_id, name, stage, report) is None,
        registry_after(connections, guild_id, channel_id, stage, report) == connections,
{
}

/// A step issues a command exactly when the announcement moves on to a stage
/// that is not final, or starts playing.
pub proof fn lemma_command_iff_progress(
    connections: Map<u64, GuildVoiceConnection>,
    guild_id: u64,
    name: Seq<char>,
    stage: Stage,
    report: Report,
)
    ensures
        command_after(connections, guild_id, name, stage, report) is Some <==> (stage_after(
            connections,
            guild_id,
            stage,
            report,
        ) != stage && !(stage_after(connections, guild_id, stage, report) is Abandoned)),
{
}

/// How far an announcement has come: the stages in the order they are passed.
pub open spec fn stage_rank(stage: Stage) -> nat {
    match stage {
        Stage::Joining => 0,
        Stage::CheckingAsset => 1,
        Stage::Synthesizing => 2,
        Stage::Decoding => 3,
        Stage::Played => 4,
        Stage::Abandoned(_) => 4,
    }
}

/// An announcement never goes back: a report either leaves the stage as it is
/// or takes it to a later one, so every announcement ends after at most four
/// reports that were answers to its commands.
pub proof fn lemma_steps_make_progress(
    connections: Map<u64, GuildVoiceConnection>,
    guild_id: u64,
    stage: Stage,
    report: Report,
)
    ensures
        stage_after(connections, guild_id, stage, report) == stage || stage_rank(
            stage_after(connections, guild_id, stage, report),
        ) > stage_rank(stage),
        is_finished(stage) <==> stage_rank(stage) == 4,
{
}

} // verus!
