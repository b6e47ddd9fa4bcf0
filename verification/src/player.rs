//! The player's message handling.
//!
//! The GUI shell delivers every event — button presses, slider moves,
//! finished fetches, the once-a-second tick — as a message. Handling a
//! message updates the player's own state and tells the shell what to do
//! next: which command to forward to the playback pipeline, and which
//! follow-up work (art fetch, info refetch, next tick) to start.

use vstd::prelude::*;

verus! {

use crate::controller::PlayerControl;
use crate::metadata::{dec_chars, digit_char, GRApiAnswer, SongTimes};
use vstd::arithmetic::div_mod::lemma_div_is_ordered;
use vstd::string::StrSliceExecFns;
use vstd::string::StringExecFns;

/// Everything the GUI shell can tell the player.
#[derive(Debug, Clone)]
pub enum PlayerMessage {
    /// The play button was pressed.
    Play,
    /// The pause button was pressed.
    Pause,
    /// The volume slider moved to this percentage.
    VolumeChanged(u8),
    /// An album-art fetch finished, with the image bytes if it succeeded.
    AlbumArt(Option<Vec<u8>>),
    /// A now-playing fetch finished.
    SongInfo(GRApiAnswer),
    /// One second of playback elapsed.
    IncrementElapsed,
}

/// What the player believes it is doing.
#[derive(Clone, Copy, PartialEq, Eq, Structural, Debug)]
pub enum PlayerStatus {
    Playing,
    Paused,
}

/// The player's own state, as the GUI renders it.
#[derive(Debug, Clone)]
pub struct PlayerModel {
    pub player_status: PlayerStatus,
    pub volume: u8,
    pub album_image: Option<Vec<u8>>,
    pub current_song_info: Option<GRApiAnswer>,
}

/// What the GUI shell must do after one message was handled.
#[derive(Clone, Copy, PartialEq, Eq, Structural, Debug)]
pub struct UpdateEffects {
    /// Forward this command to the playback pipeline.
    pub control: Option<PlayerControl>,
    /// Hand the fresh song info to the rich-presence integration.
    pub notify_presence: bool,
    /// Start an album-art fetch for the fresh song info.
    pub fetch_album_art: bool,
    /// Start a now-playing refetch: the track just ended.
    pub fetch_song_info: bool,
    /// Sleep one second, then deliver the next tick.
    pub schedule_tick: bool,
}

/// No effects at all; the arms below override what they trigger.
pub open spec fn no_effects() -> UpdateEffects {
    UpdateEffects {
        control: None,
        notify_presence: false,
        fetch_album_art: false,
        fetch_song_info: false,
        schedule_tick: false,
    }
}

/// A message the player accepts: a volume is a percentage, and a tick must
/// not overflow the played-seconds counter.
pub open spec fn message_ok(m: PlayerModel, msg: PlayerMessage) -> bool {
    match msg {
        PlayerMessage::VolumeChanged(v) => v <= 100,
        PlayerMessage::IncrementElapsed => (m.current_song_info matches Some(info) ==>
            info.songtimes.played < u64::MAX),
        _ => true,
    }
}

/// The song info after one second of playback.
pub open spec fn tick_song_info(info: GRApiAnswer) -> GRApiAnswer {
    GRApiAnswer {
        songtimes: SongTimes {
            played: (info.songtimes.played + 1) as u64,
            ..info.songtimes
        },
        ..info
    }
}

/// The model after handling `msg`.
pub open spec fn update_state(m: PlayerModel, msg: PlayerMessage) -> PlayerModel {
    match msg {
        PlayerMessage::Play => PlayerModel { player_status: PlayerStatus::Playing, ..m },
        PlayerMessage::Pause => PlayerModel { player_status: PlayerStatus::Paused, ..m },
        PlayerMessage::VolumeChanged(v) => PlayerModel { volume: v, ..m },
        PlayerMessage::AlbumArt(art) => PlayerModel { album_image: art, ..m },
        PlayerMessage::SongInfo(info) => PlayerModel { current_song_info: Some(info), ..m },
        PlayerMessage::IncrementElapsed => match m.current_song_info {
            Some(info) => PlayerModel { current_song_info: Some(tick_song_info(info)), ..m },
            None => m,
        },
    }
}

/// The effects of handling `msg`: play, pause and volume go to the pipeline;
/// fresh song info goes to the rich presence and starts an art fetch; a tick
/// reschedules itself and, exactly when it completes the track, starts a
/// now-playing refetch.
pub open spec fn update_effects(m: PlayerModel, msg: PlayerMessage) -> UpdateEffects {
    match msg {
        PlayerMessage::Play => UpdateEffects {
            control: Some(PlayerControl::Play),
            ..no_effects()
        },
        PlayerMessage::Pause => UpdateEffects {
            control: Some(PlayerControl::Pause),
            ..no_effects()
        },
        PlayerMessage::VolumeChanged(v) => UpdateEffects {
            control: Some(PlayerControl::Volume(v)),
            ..no_effects()
        },
        PlayerMessage::AlbumArt(_) => no_effects(),
        PlayerMessage::SongInfo(_) => UpdateEffects {
            notify_presence: true,
            fetch_album_art: true,
            ..no_effects()
        },
        PlayerMessage::IncrementElapsed => UpdateEffects {
            fetch_song_info: (m.current_song_info matches Some(info)
                && info.songtimes.played + 1 == info.songtimes.duration),
            schedule_tick: true,
            ..no_effects()
        },
    }
}

impl PlayerModel {
    /// A model is well formed while its volume is a percentage.
    pub open spec fn wf(&self) -> bool {
        self.volume <= 100
    }

    /// The player as it first opens: paused, nothing fetched yet, at the
    /// given volume.
    pub fn new(volume: u8) -> (m: PlayerModel)
        requires
            volume <= 100,
        ensures
            m.wf(),
            m.player_status == PlayerStatus::Paused,
            m.volume == volume,
            m.album_image is None,
            m.current_song_info is None,
    {
        PlayerModel {
            player_status: PlayerStatus::Paused,
            volume,
            album_image: None,
            current_song_info: None,
        }
    }

    /// Handles one message: steps the model and returns what the shell must
    /// do. The pipeline sees commands in the order messages were handled.
    pub fn update(&mut self, msg: PlayerMessage) -> (fx: UpdateEffects)
        requires
            old(self).wf(),
            message_ok(*old(self), msg),
        ensures
            final(self).wf(),
            *final(self) == update_state(*old(self), msg),
            fx == update_effects(*old(self), msg),
    {
        match msg {
            PlayerMessage::Play => {
                self.player_status = PlayerStatus::Playing;
                UpdateEffects {
                    control: Some(PlayerControl::Play),
                    notify_presence: false,
                    fetch_album_art: false,
                    fetch_song_info: false,
                    schedule_tick: false,
                }
            },
            PlayerMessage::Pause => {
                self.player_status = PlayerStatus::Paused;
                UpdateEffects {
                    control: Some(PlayerControl::Pause),
                    notify_presence: false,
                    fetch_album_art: false,
                    fetch_song_info: false,
                    schedule_tick: false,
                }
            },
            PlayerMessage::VolumeChanged(v) => {
                self.volume = v;
                UpdateEffects {
                    control: Some(PlayerControl::Volume(v)),
                    notify_presence: false,
                    fetch_album_art: false,
                    fetch_song_info: false,
                    schedule_tick: false,
                }
            },
            PlayerMessage::AlbumArt(art) => {
                self.album_image = art;
                UpdateEffects {
                    control: None,
                    notify_presence: false,
                    fetch_album_art: false,
                    fetch_song_info: false,
                    schedule_tick: false,
                }
            },
            PlayerMessage::SongInfo(info) => {
                self.current_song_info = Some(info);
                UpdateEffects {
                    control: None,
                    notify_presence: true,
                    fetch_album_art: true,
                    fetch_song_info: false,
                    schedule_tick: false,
                }
            },
            PlayerMessage::IncrementElapsed => {
                let mut refetch = false;
                match &mut self.current_song_info {
                    Some(info) => {
                        info.songtimes.played = info.songtimes.played + 1;
                        refetch = info.songtimes.played == info.songtimes.duration;
                    },
                    None => {},
                }
                UpdateEffects {
                    control: None,
                    notify_presence: false,
                    fetch_album_art: false,
                    fetch_song_info: refetch,
                    schedule_tick: true,
                }
            },
        }
    }

    /// The elapsed cell of the time row: minutes and seconds played, or the
    /// placeholder before any song info has arrived.
    pub fn elapsed_label(&self) -> (r: String)
        ensures
            r@ == match self.current_song_info {
                None => "--:--"@,
                Some(info) => track_time_chars(info.songtimes.played as int),
            },
    {
        match &self.current_song_info {
            None => "--:--".to_owned(),
            Some(info) => format_track_time(info.songtimes.played),
        }
    }

    /// The duration cell of the time row, shaped like [`Self::elapsed_label`].
    pub fn duration_label(&self) -> (r: String)
        ensures
            r@ == match self.current_song_info {
                None => "--:--"@,
                Some(info) => track_time_chars(info.songtimes.duration as int),
            },
    {
        match &self.current_song_info {
            None => "--:--".to_owned(),
            Some(info) => format_track_time(info.songtimes.duration),
        }
    }

    /// The volume cell of the time row: the percentage with its sign.
    pub fn volume_label(&self) -> (r: String)
        ensures
            r@ == dec_chars(self.volume as int) + "%"@,
    {
        let mut r = format_u64(self.volume as u64);
        r.append("%");
        r
    }

    /// The window title: the player's name, and the playing track when one
    /// is known.
    pub fn title(&self) -> (t: String)
        ensures
            t@ == match self.current_song_info {
                None => "Wan Player"@,
                Some(info) => "Wan Player | "@ + info.songinfo.artist@ + " - "@
                    + info.songinfo.title@,
            },
    {
        match &self.current_song_info {
            None => "Wan Player".to_owned(),
            Some(info) => {
                let mut t = "Wan Player | ".to_owned();
                t.append(info.songinfo.artist.as_str());
                t.append(" - ");
                t.append(info.songinfo.title.as_str());
                t
            },
        }
    }
}

/// The characters of a track time as the time row shows it: the minutes, a
/// colon, and exactly two digits of seconds.
pub open spec fn track_time_chars(t: int) -> Seq<char> {
    dec_chars(t / 60) + seq![':'] + seq![digit_char((t % 60) / 10), digit_char((t % 60) % 10)]
}

/// The one-character string for a decimal digit.
fn digit_str(d: u64) -> (r: &'static str)
    requires
        d < 10,
    ensures
        r@ == seq![digit_char(d as int)],
{
    proof {
        reveal_strlit("0");
        reveal_strlit("1");
        reveal_strlit("2");
        reveal_strlit("3");
        reveal_strlit("4");
        reveal_strlit("5");
        reveal_strlit("6");
        reveal_strlit("7");
        reveal_strlit("8");
        reveal_strlit("9");
    }
    if d == 0 {
        proof {
            assert("0"@ =~= seq![digit_char(0)]);
        }
        "0"
    } else if d == 1 {
        proof {
            assert("1"@ =~= seq![digit_char(1)]);
        }
        "1"
    } else if d == 2 {
        proof {
            assert("2"@ =~= seq![digit_char(2)]);
        }
        "2"
    } else if d == 3 {
        proof {
            assert("3"@ =~= seq![digit_char(3)]);
        }
        "3"
    } else if d == 4 {
        proof {
            assert("4"@ =~= seq![digit_char(4)]);
        }
        "4"
    } else if d == 5 {
        proof {
            assert("5"@ =~= seq![digit_char(5)]);
        }
        "5"
    } else if d == 6 {
        proof {
            assert("6"@ =~= seq![digit_char(6)]);
        }
        "6"
    } else if d == 7 {
        proof {
            assert("7"@ =~= seq![digit_char(7)]);
        }
        "7"
    } else if d == 8 {
        proof {
            assert("8"@ =~= seq![digit_char(8)]);
        }
        "8"
    } else {
        proof {
            assert("9"@ =~= seq![digit_char(9)]);
        }
        "9"
    }
}

/// The digit characters of digits collected least significant first, read
/// back most significant first.
spec fn rev_digit_chars(ds: Seq<u64>) -> Seq<char> {
    Seq::new(ds.len(), |j: int| digit_char(ds[ds.len() - 1 - j] as int))
}

/// Renders a number in decimal, most significant digit first, without
/// leading zeros.
fn format_u64(n: u64) -> (r: String)
    ensures
        r@ == dec_chars(n as int),
{
    let mut low_digits: Vec<u64> = Vec::new();
    let mut m: u64 = n;
    proof {
        assert(rev_digit_chars(low_digits@) =~= Seq::<char>::empty());
        assert(dec_chars(n as int) =~= dec_chars(m as int) + rev_digit_chars(low_digits@));
    }
    while m >= 10
        invariant
            forall|j: int| 0 <= j < low_digits@.len() ==> low_digits@[j] < 10,
            dec_chars(n as int) == dec_chars(m as int) + rev_digit_chars(low_digits@),
        decreases m,
    {
        let ghost prev = low_digits@;
        let ghost prev_m = m as int;
        let d = m % 10;
        m = m / 10;
        low_digits.push(d);
        proof {
            let dc = digit_char(d as int);
            assert(dec_chars(prev_m) == dec_chars(m as int).push(dc));
            assert(rev_digit_chars(low_digits@) =~= seq![dc] + rev_digit_chars(prev));
            assert(dec_chars(m as int).push(dc) + rev_digit_chars(prev) =~= dec_chars(m as int)
                + rev_digit_chars(low_digits@));
        }
    }
    let mut r = digit_str(m).to_owned();
    proof {
        assert(r@ =~= dec_chars(m as int));
        assert(rev_digit_chars(low_digits@).take(0) =~= Seq::<char>::empty());
        assert(r@ =~= dec_chars(m as int) + rev_digit_chars(low_digits@).take(0));
    }
    let mut i: usize = low_digits.len();
    while i > 0
        invariant
            i <= low_digits@.len(),
            forall|j: int| 0 <= j < low_digits@.len() ==> low_digits@[j] < 10,
            dec_chars(n as int) == dec_chars(m as int) + rev_digit_chars(low_digits@),
            r@ == dec_chars(m as int) + rev_digit_chars(low_digits@).take(
                low_digits@.len() - i,
            ),
        decreases i,
    {
        let ghost before = r@;
        i = i - 1;
        r.append(digit_str(low_digits[i]));
        proof {
            let rev = rev_digit_chars(low_digits@);
            let done = low_digits@.len() - i;
            assert(rev[done - 1] == digit_char(low_digits@[i as int] as int));
            assert(rev.take(done) =~= rev.take(done - 1).push(rev[done - 1]));
            assert(before + seq![digit_char(low_digits@[i as int] as int)] =~= dec_chars(
                m as int,
            ) + rev.take(done));
        }
    }
    proof {
        assert(rev_digit_chars(low_digits@).take(low_digits@.len() as int) =~= rev_digit_chars(
            low_digits@,
        ));
    }
    r
}

/// Renders a track time for the time row: minutes unpadded, then a colon,
/// then the seconds as exactly two digits.
pub fn format_track_time(t: u64) -> (r: String)
    ensures
        r@ == track_time_chars(t as int),
{
    let mins = t / 60;
    let secs = t % 60;
    let mut r = format_u64(mins);
    r.append(":");
    proof {
        lemma_div_is_ordered(secs as int, 59, 10);
    }
    let d1 = secs / 10;
    let d2 = secs % 10;
    r.append(digit_str(d1));
    r.append(digit_str(d2));
    proof {
        reveal_strlit(":");
        assert(":"@ =~= seq![':']);
        assert(r@ =~= track_time_chars(t as int));
    }
    r
}

} // verus!
