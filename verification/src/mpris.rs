//! Media players reached over MPRIS: their state as the bar shows it, and how player
//! appearances and commands are dispatched.

use vstd::prelude::*;
use vstd::string::*;
use crate::text::{str_eq, starts_with};

verus! {

/// A media player on the bus: its bus name and the identity it reports.
pub struct MediaPlayer {
    pub name: String,
    pub identity: String,
}

#[derive(PartialEq, Eq, Structural)]
pub enum PlaybackStatus {
    Playing,
    Paused,
    Stopped,
}

#[derive(PartialEq, Eq, Structural)]
pub enum PlayerAbility {
    GoNext,
    GoPrevious,
    Play,
    Pause,
    Seek,
    Control,
}

#[derive(PartialEq, Eq, Structural)]
pub enum LoopStatus {
    /// No looping (the property's `None`).
    NoLoop,
    Track,
    Playlist,
}

/// A request to a player, named by its bus name.
pub enum PlayerCommand {
    Play(String),
    Pause(String),
    Next(String),
    Prev(String),
    Seek(String, i64),
    Shuffle(String, bool),
}

/// The call a command makes on the player's proxy.
#[derive(PartialEq, Eq, Structural)]
pub enum PlayerAction {
    Play,
    Pause,
    Next,
    Previous,
    Seek(i64),
    SetShuffle(bool),
}

impl PlaybackStatus {
    /// The status that a read of the `PlaybackStatus` property gives: `None` stands for a
    /// failed read. `Playing` and `Paused` are recognised; anything else is `Stopped`.
    pub fn from_property(property: Option<&str>) -> (r: PlaybackStatus)
        ensures
            r == (match property {
                Some(s) => if s@ == "Playing"@ {
                    PlaybackStatus::Playing
                } else if s@ == "Paused"@ {
                    PlaybackStatus::Paused
                } else {
                    PlaybackStatus::Stopped
                },
                None => PlaybackStatus::Stopped,
            }),
    {
        match property {
            Some(status) => {
                if str_eq(status, "Playing") {
                    PlaybackStatus::Playing
                } else if str_eq(status, "Paused") {
                    PlaybackStatus::Paused
                } else {
                    PlaybackStatus::Stopped
                }
            },
            None => PlaybackStatus::Stopped,
        }
    }
}

impl LoopStatus {
    /// The status that a read of the `LoopStatus` property gives: `None` stands for a
    /// failed read. `Track` and `Playlist` are recognised; anything else is `NoLoop`.
    pub fn from_property(property: Option<&str>) -> (r: LoopStatus)
        ensures
            r == (match property {
                Some(s) => if s@ == "Track"@ {
                    LoopStatus::Track
                } else if s@ == "Playlist"@ {
                    LoopStatus::Playlist
                } else {
                    LoopStatus::NoLoop
                },
                None => LoopStatus::NoLoop,
            }),
    {
        match property {
            Some(status) => {
                if str_eq(status, "Track") {
                    LoopStatus::Track
                } else if str_eq(status, "Playlist") {
                    LoopStatus::Playlist
                } else {
                    LoopStatus::NoLoop
                }
            },
            None => LoopStatus::NoLoop,
        }
    }
}

/// The bus-name prefix of MPRIS media players.
pub open spec fn player_prefix() -> Seq<char> {
    "org.mpris.MediaPlayer2"@
}

/// Whether `name` is the bus name of a media player.
pub fn is_media_player_name(name: &str) -> (r: bool)
    ensures
        r == player_prefix().is_prefix_of(name@),
{
    starts_with(name, "org.mpris.MediaPlayer2")
}

/// The names of `names` that are media players, in order.
pub open spec fn media_player_names_spec(names: Seq<Seq<char>>) -> Seq<Seq<char>> {
    names.filter(|n: Seq<char>| player_prefix().is_prefix_of(n))
}

/// The bus names among `names` that belong to media players, in order.
pub fn media_player_names(names: &Vec<String>) -> (r: Vec<String>)
    ensures
        r@.map_values(|s: String| s@) == media_player_names_spec(names@.map_values(|s: String| s@)),
{
    let ghost all = names@.map_values(|s: String| s@);
    let mut r: Vec<String> = Vec::new();
    let n = names.len();
    let mut i: usize = 0;
    while i < n
        invariant
            n == names@.len(),
            all == names@.map_values(|s: String| s@),
            i <= n,
            r@.map_values(|s: String| s@) == media_player_names_spec(all.take(i as int)),
        decreases n - i,
    {
        proof {
            reveal_with_fuel(Seq::<_>::filter, 1);
            assert(all.take(i + 1).drop_last() =~= all.take(i as int));
            assert(all.take(i + 1).last() == names@[i as int]@);
        }
        if is_media_player_name(names[i].as_str()) {
            r.push(names[i].clone());
            assert(r@.map_values(|s: String| s@) =~= media_player_names_spec(all.take(i + 1)));
        } else {
            assert(r@.map_values(|s: String| s@) =~= media_player_names_spec(all.take(i + 1)));
        }
        i = i + 1;
    }
    assert(all.take(n as int) =~= all);
    r
}

/// What to do when the owner of a bus name changes.
#[derive(PartialEq, Eq, Structural)]
pub enum OwnerChangeAction {
    /// Not a media player.
    Ignore,
    /// A media player appeared: start following it.
    Connect,
    /// A media player went away: stop following it and report it.
    Disconnect,
}

/// Decides on an owner change of `name`: names of other services are ignored; a media
/// player with a new owner is followed; one without is reported gone.
pub fn owner_change_action(name: &str, has_new_owner: bool) -> (r: OwnerChangeAction)
    ensures
        !player_prefix().is_prefix_of(name@) ==> r == OwnerChangeAction::Ignore,
        player_prefix().is_prefix_of(name@) && has_new_owner ==> r == OwnerChangeAction::Connect,
        player_prefix().is_prefix_of(name@) && !has_new_owner ==> r == OwnerChangeAction::Disconnect,
{
    if !is_media_player_name(name) {
        OwnerChangeAction::Ignore
    } else if has_new_owner {
        OwnerChangeAction::Connect
    } else {
        OwnerChangeAction::Disconnect
    }
}

/// What follows an attempt to follow a new player: a player that could not be followed
/// is reported gone.
pub fn after_connect_attempt(connected: bool) -> (r: Option<OwnerChangeAction>)
    ensures
        connected ==> r is None,
        !connected ==> r == Some(OwnerChangeAction::Disconnect),
{
    if connected {
        None
    } else {
        Some(OwnerChangeAction::Disconnect)
    }
}

impl PlayerCommand {
    /// The bus name of the player the command is for.
    pub fn target(&self) -> (r: &String)
        ensures
            r == match self {
                PlayerCommand::Play(n) => n,
                PlayerCommand::Pause(n) => n,
                PlayerCommand::Next(n) => n,
                PlayerCommand::Prev(n) => n,
                PlayerCommand::Seek(n, _) => n,
                PlayerCommand::Shuffle(n, _) => n,
            },
    {
        match self {
            PlayerCommand::Play(n) => n,
            PlayerCommand::Pause(n) => n,
            PlayerCommand::Next(n) => n,
            PlayerCommand::Prev(n) => n,
            PlayerCommand::Seek(n, _) => n,
            PlayerCommand::Shuffle(n, _) => n,
        }
    }

    /// The call the command makes on the player.
    pub fn action(&self) -> (r: PlayerAction)
        ensures
            r == match self {
                PlayerCommand::Play(_) => PlayerAction::Play,
                PlayerCommand::Pause(_) => PlayerAction::Pause,
                PlayerCommand::Next(_) => PlayerAction::Next,
                PlayerCommand::Prev(_) => PlayerAction::Previous,
                PlayerCommand::Seek(_, p) => PlayerAction::Seek(*p),
                PlayerCommand::Shuffle(_, s) => PlayerAction::SetShuffle(*s),
            },
    {
        match self {
            PlayerCommand::Play(_) => PlayerAction::Play,
            PlayerCommand::Pause(_) => PlayerAction::Pause,
            PlayerCommand::Next(_) => PlayerAction::Next,
            PlayerCommand::Prev(_) => PlayerAction::Previous,
            PlayerCommand::Seek(_, p) => PlayerAction::Seek(*p),
            PlayerCommand::Shuffle(_, s) => PlayerAction::SetShuffle(*s),
        }
    }

    /// The name of the variant, as written in the source.
    pub open spec fn variant_name_spec(&self) -> Seq<char> {
        match self {
            PlayerCommand::Play(_) => "Play"@,
            PlayerCommand::Pause(_) => "Pause"@,
            PlayerCommand::Next(_) => "Next"@,
            PlayerCommand::Prev(_) => "Prev"@,
            PlayerCommand::Seek(..) => "Seek"@,
            PlayerCommand::Shuffle(..) => "Shuffle"@,
        }
    }

    /// The name of the variant, as written in the source.
    pub fn variant_name(&self) -> (r: &'static str)
        ensures
            r@ == self.variant_name_spec(),
    {
        match self {
            PlayerCommand::Play(_) => "Play",
            PlayerCommand::Pause(_) => "Pause",
            PlayerCommand::Next(_) => "Next",
            PlayerCommand::Prev(_) => "Prev",
            PlayerCommand::Seek(..) => "Seek",
            PlayerCommand::Shuffle(..) => "Shuffle",
        }
    }
}

} // verus!
