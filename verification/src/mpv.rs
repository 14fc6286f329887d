//! Reading the event messages of mpv's JSON IPC.
use vstd::prelude::*;
use crate::app::PlayerEvent;
use crate::search::{field_str, Field};

verus! {

/// The members of an mpv event message that the player reads. `data_ms`
/// is the `data` member in milliseconds when it is a finite number, and
/// `data_bool` the `data` member when it is a boolean.
pub struct MpvMessage {
    pub event: Field,
    pub name: Field,
    pub reason: Field,
    pub data_ms: Option<i64>,
    pub data_bool: Option<bool>,
}

/// What an mpv message means to the player: a [`PlayerEvent`], or a change
/// of the volume (whose value the caller reads from the message itself).
#[derive(Debug, PartialEq, Eq)]
pub enum MpvEvent {
    Player(PlayerEvent),
    Volume,
}

/// Whether `r` is what a message means, given the strings its `event`,
/// `name` and `reason` members hold (`None` where the member is missing or
/// not a string) and its `data` member as milliseconds and as a boolean: a `property-change` of
/// `time-pos`, `duration`, `pause` or `volume` (the four observed
/// properties), or the start or end of a file; `None` for anything else,
/// including a message whose `event` (or, for a property change, `name`)
/// is not a string. A pause without a boolean reads as not paused, and an
/// end without a reason has reason `unknown`.
pub open spec fn means_of(
    event: Option<Seq<char>>,
    name: Option<Seq<char>>,
    reason: Option<Seq<char>>,
    data_ms: Option<i64>,
    data_bool: Option<bool>,
    r: Option<MpvEvent>,
) -> bool {
    match event {
        None => r is None,
        Some(ev) => if ev == "property-change"@ {
            match name {
                None => r is None,
                Some(n) => if n == "time-pos"@ {
                    r == Some(MpvEvent::Player(PlayerEvent::TimePos(data_ms)))
                } else if n == "duration"@ {
                    r == Some(MpvEvent::Player(PlayerEvent::Duration(data_ms)))
                } else if n == "pause"@ {
                    r == Some(
                        MpvEvent::Player(
                            PlayerEvent::Paused(
                                match data_bool {
                                    Some(b) => b,
                                    None => false,
                                },
                            ),
                        ),
                    )
                } else if n == "volume"@ {
                    r == Some(MpvEvent::Volume)
                } else {
                    r is None
                },
            }
        } else if ev == "start-file"@ {
            r == Some(MpvEvent::Player(PlayerEvent::StartFile))
        } else if ev == "end-file"@ {
            r matches Some(MpvEvent::Player(PlayerEvent::EndFile { reason: got })) && got@ == match reason {
                Some(x) => x,
                None => "unknown"@,
            }
        } else {
            r is None
        },
    }
}

/// Whether `r` is what message `m` means (see [`means_of`]).
pub open spec fn means(m: MpvMessage, r: Option<MpvEvent>) -> bool {
    means_of(field_str(m.event), field_str(m.name), field_str(m.reason), m.data_ms, m.data_bool, r)
}

fn is(f: &Field, lit: &str) -> (r: bool)
    ensures
        r == (field_str(*f) == Some(lit@)),
{
    match f {
        Field::Str(s) => *s == String::from_str(lit),
        _ => false,
    }
}

/// What an mpv event message means to the player, if anything.
pub fn parse_event(m: &MpvMessage) -> (r: Option<MpvEvent>)
    ensures
        means(*m, r),
{
    if is(&m.event, "property-change") {
        if is(&m.name, "time-pos") {
            Some(MpvEvent::Player(PlayerEvent::TimePos(m.data_ms)))
        } else if is(&m.name, "duration") {
            Some(MpvEvent::Player(PlayerEvent::Duration(m.data_ms)))
        } else if is(&m.name, "pause") {
            let p = match m.data_bool {
                Some(b) => b,
                None => false,
            };
            Some(MpvEvent::Player(PlayerEvent::Paused(p)))
        } else if is(&m.name, "volume") {
            Some(MpvEvent::Volume)
        } else {
            None
        }
    } else if is(&m.event, "start-file") {
        Some(MpvEvent::Player(PlayerEvent::StartFile))
    } else if is(&m.event, "end-file") {
        let reason = match &m.reason {
            Field::Str(s) => s.clone(),
            _ => String::from_str("unknown"),
        };
        Some(MpvEvent::Player(PlayerEvent::EndFile { reason }))
    } else {
        None
    }
}

} // verus!
