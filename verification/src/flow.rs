//! From a key press to what is shown: the decisions of the program that
//! waits for Ctrl+C, reads the clipboard and shows the weapon that stands
//! there. The program does the waiting, the reading and the showing; what
//! it does next, and what it shows, is decided here.

use vstd::prelude::*;
use crate::dps::Dps;
use crate::parser::{ParseError, Parsed, lemma_parsed_base_is_known, parse, parse_of, reads};
use crate::ranking::{DpsWithRunes, is_ranking};
use crate::weapon::{ItemView, Quality, Weapon, WeaponError, WeaponStats, lookup};

verus! {

/// The attempts to read the clipboard after a key press.
pub const CLIPBOARD_ATTEMPTS: u32 = 10;

/// The milliseconds to wait between two failed attempts.
pub const RETRY_PAUSE_MILLIS: u64 = 3;

/// The milliseconds for which the clipboard is watched for a change.
pub const WATCH_MILLIS: u128 = 50;

/// The milliseconds between two looks at the clipboard.
pub const POLL_MILLIS: u64 = 1;

/// The quality at which a weapon is shown a second time.
pub const FULL_QUALITY: u8 = 20;

/// Why the clipboard could not be read.
#[derive(Debug, Clone, PartialEq)]
pub enum ClipboardError {
    CouldNotInitializeClipboardContext(String),
    CouldNotGetClipboardContents(String),
}

/// Why a key press shows nothing.
#[derive(Debug, Clone, PartialEq)]
pub enum Error {
    Clipboard(ClipboardError),
    Parse(ParseError),
    Weapon(WeaponError),
}

/// What the keyboard reports, as far as it matters here.
#[derive(Debug, Clone, Copy, PartialEq, Eq, Structural)]
pub enum KeyEvent {
    ControlLeftPressed,
    ControlLeftReleased,
    KeyCPressed,
    Other,
}

/// Takes one event of the keyboard, and says whether it completes Ctrl+C:
/// it does where C goes down while the left control key is held. The
/// control key counts as held from its press to its release or to the next
/// press of C.
pub fn listen_keyboard(event: KeyEvent, ctrl_pressed: &mut bool) -> (copied: bool)
    ensures
        copied == (event == KeyEvent::KeyCPressed && *old(ctrl_pressed)),
        *final(ctrl_pressed) == match event {
            KeyEvent::ControlLeftPressed => true,
            KeyEvent::ControlLeftReleased => false,
            KeyEvent::KeyCPressed => false,
            KeyEvent::Other => *old(ctrl_pressed),
        },
{
    match event {
        KeyEvent::ControlLeftPressed => {
            *ctrl_pressed = true;
            false
        },
        KeyEvent::KeyCPressed => {
            let held = *ctrl_pressed;
            *ctrl_pressed = false;
            held
        },
        KeyEvent::ControlLeftReleased => {
            *ctrl_pressed = false;
            false
        },
        KeyEvent::Other => false,
    }
}

/// After a failed attempt to read the clipboard, of `attempts` that were
/// left before it: the attempts that are left now, or nothing where this
/// was the last.
pub fn after_failed_attempt(attempts: u32) -> (r: Option<u32>)
    ensures
        r == if attempts > 1 {
            Some((attempts - 1) as u32)
        } else {
            None
        },
{
    if attempts > 1 {
        Some(attempts - 1)
    } else {
        None
    }
}

/// What the watch over the clipboard has to go by.
#[derive(Debug, Clone, Copy, PartialEq, Eq, Structural)]
pub enum WatchEvent {
    /// So many milliseconds have gone by since the watch began.
    Elapsed(u128),
    /// The clipboard was looked at, and holds something new or not.
    Looked { changed: bool },
}

/// What the watch over the clipboard does next.
#[derive(Debug, Clone, Copy, PartialEq, Eq, Structural)]
pub enum WatchAction {
    /// Look at the clipboard.
    Look,
    /// Sleep for so many milliseconds, then ask again.
    Sleep(u64),
    /// Take what the clipboard holds now.
    TakeCurrent,
    /// Take what the clipboard held when the watch began, and count the
    /// watch as having lasted so many milliseconds.
    TakePrevious(u128),
}

/// The next step of the watch over the clipboard. The clipboard is looked
/// at as long as the watch has not lasted [`WATCH_MILLIS`]; after that what
/// it held at first is taken. Something new is taken at once; otherwise the
/// watch sleeps for [`POLL_MILLIS`].
pub fn watch_clipboard(event: WatchEvent) -> (r: WatchAction)
    ensures
        r == match event {
            WatchEvent::Elapsed(millis) => if millis < WATCH_MILLIS {
                WatchAction::Look
            } else {
                WatchAction::TakePrevious(WATCH_MILLIS)
            },
            WatchEvent::Looked { changed } => if changed {
                WatchAction::TakeCurrent
            } else {
                WatchAction::Sleep(POLL_MILLIS)
            },
        },
{
    match event {
        WatchEvent::Elapsed(millis) => if millis < WATCH_MILLIS {
            WatchAction::Look
        } else {
            WatchAction::TakePrevious(WATCH_MILLIS)
        },
        WatchEvent::Looked { changed } => if changed {
            WatchAction::TakeCurrent
        } else {
            WatchAction::Sleep(POLL_MILLIS)
        },
    }
}

/// Where to put the window for a mouse at `mouse`: 80 below the mouse, and
/// 200 to its left where the mouse is more than 400 from the left edge, at
/// the left edge otherwise.
pub fn window_position(mouse: (i32, i32)) -> (r: (i64, i64))
    ensures
        r.0 == if mouse.0 > 400 {
            mouse.0 - 200
        } else {
            0
        },
        r.1 == mouse.1 + 80,
{
    let x: i64 = if mouse.0 > 400 {
        mouse.0 as i64 - 200
    } else {
        0
    };
    (x, mouse.1 as i64 + 80)
}

/// A weapon with its damage per second and its ranking of runes.
#[derive(Debug, Clone, PartialEq)]
pub struct WeaponWithCalculatedRunes {
    pub weapon: Weapon,
    pub dps: Dps,
    pub dps_with_different_runes: Vec<DpsWithRunes>,
}

impl WeaponWithCalculatedRunes {
    /// Whether this is the weapon `w` with its figures and its ranking on
    /// the base `stats`.
    pub open spec fn is_of(self, w: ItemView, stats: WeaponStats) -> bool {
        &&& self.weapon@ == w
        &&& self.dps.is_of(w, stats)
        &&& is_ranking(self.dps_with_different_runes@, w, stats)
    }

    /// Computes the figures and the ranking of `weapon` on its base as
    /// `table` has it.
    pub fn new(weapon: Weapon, table: &Vec<WeaponStats>) -> (r: Result<
        WeaponWithCalculatedRunes,
        WeaponError,
    >)
        ensures
            match r {
                Ok(computed) => lookup(table@, weapon.base@) is Some && computed.is_of(
                    weapon@,
                    lookup(table@, weapon.base@)->0,
                ),
                Err(WeaponError::BaseStatsNotFound(name)) => lookup(table@, weapon.base@) is None
                    && name@ == weapon.base@,
            },
    {
        match weapon.base_stats(table) {
            Ok(stats) => {
                let dps_with_different_runes = weapon.with_different_runes_on(stats);
                let dps = weapon.dps_on(stats);
                Ok(WeaponWithCalculatedRunes { weapon, dps, dps_with_different_runes })
            },
            Err(e) => Err(e),
        }
    }
}

/// What is shown for a weapon: the weapon as it is, the time that the
/// clipboard took, the picture of the base, and the weapon at full quality
/// where it is not of full quality already.
#[derive(Debug, Clone, PartialEq)]
pub struct Data {
    pub weapon: WeaponWithCalculatedRunes,
    pub elapsed: u128,
    pub img: String,
    pub weapon_q20: Option<WeaponWithCalculatedRunes>,
}

impl Data {
    /// Whether this is what is shown for the weapon `w` on the base `stats`
    /// after the clipboard took `elapsed`.
    pub open spec fn is_of(self, w: ItemView, stats: WeaponStats, elapsed: u128) -> bool {
        &&& self.weapon.is_of(w, stats)
        &&& self.elapsed == elapsed
        &&& self.img@ == stats.img@
        &&& if w.quality == Quality(FULL_QUALITY) {
            self.weapon_q20 is None
        } else {
            self.weapon_q20 is Some && self.weapon_q20->0.is_of(
                w.with_quality(Quality(FULL_QUALITY)),
                stats,
            )
        }
    }

    /// Computes what is shown for `weapon`.
    pub fn new(weapon: Weapon, elapsed: u128, table: &Vec<WeaponStats>) -> (r: Result<
        Data,
        WeaponError,
    >)
        ensures
            match r {
                Ok(data) => lookup(table@, weapon.base@) is Some && data.is_of(
                    weapon@,
                    lookup(table@, weapon.base@)->0,
                    elapsed,
                ),
                Err(WeaponError::BaseStatsNotFound(name)) => lookup(table@, weapon.base@) is None
                    && name@ == weapon.base@,
            },
    {
        let stats = match weapon.base_stats(table) {
            Ok(stats) => stats,
            Err(e) => {
                return Err(e);
            },
        };
        let weapon_q20 = if weapon.quality.0 == FULL_QUALITY {
            None
        } else {
            let full = weapon.with_quality(Quality(FULL_QUALITY));
            let dps_with_different_runes = full.with_different_runes_on(stats);
            let dps = full.dps_on(stats);
            Some(WeaponWithCalculatedRunes { weapon: full, dps, dps_with_different_runes })
        };
        let dps_with_different_runes = weapon.with_different_runes_on(stats);
        let dps = weapon.dps_on(stats);
        Ok(
            Data {
                weapon: WeaponWithCalculatedRunes { weapon, dps, dps_with_different_runes },
                elapsed,
                img: stats.img.clone(),
                weapon_q20,
            },
        )
    }

    /// Reads the weapon that `contents` describes, and computes what is
    /// shown for it. A text that gives no item has the failure of the
    /// reading. A text that gives one always has something to show: the
    /// base of an item that was read is a base of the table.
    pub fn from_clipboard(contents: &str, elapsed: u128, table: &Vec<WeaponStats>) -> (r: Result<
        Data,
        Error,
    >)
        ensures
            match (r, parse_of(contents@, table@)) {
                (Ok(data), Ok(item)) => lookup(table@, item.base) is Some && data.is_of(
                    item,
                    lookup(table@, item.base)->0,
                    elapsed,
                ),
                (Err(Error::Parse(e)), Err(failure)) => e@ == failure,
                _ => false,
            },
    {
        proof {
            if parse_of(contents@, table@) is Ok {
                lemma_parsed_base_is_known(contents@, table@);
            }
        }
        match parse(contents, table) {
            Ok(item) => {
                let weapon = item.into_weapon();
                match Data::new(weapon, elapsed, table) {
                    Ok(data) => Ok(data),
                    Err(e) => Err(Error::Weapon(e)),
                }
            },
            Err(e) => Err(Error::Parse(e)),
        }
    }
}

/// What the plain window shows for a text: what reading the text gave, and
/// for an item its ranking of runes.
#[derive(Debug, Clone, PartialEq)]
pub struct Preview {
    pub parsed: Option<Result<Parsed, ParseError>>,
    pub runes: Option<Vec<DpsWithRunes>>,
}

impl Preview {
    /// Whether this is what is shown for `text` on `table`: nothing for an
    /// empty text; else what reading the text gives, with the ranking of
    /// the item where it gives one.
    pub open spec fn is_of(self, text: Seq<char>, table: Seq<WeaponStats>) -> bool {
        if text.len() == 0 {
            self.parsed is None && self.runes is None
        } else {
            &&& self.parsed is Some
            &&& reads(self.parsed->0, text, table)
            &&& match self.parsed->0 {
                Ok(item) => self.runes is Some && lookup(table, item.base@) is Some && is_ranking(
                    self.runes->0@,
                    item@,
                    lookup(table, item.base@)->0,
                ),
                Err(_) => self.runes is None,
            }
        }
    }

    /// Computes what is shown for `text`.
    pub fn of(text: &str, table: &Vec<WeaponStats>) -> (r: Preview)
        ensures
            r.is_of(text@, table@),
    {
        if text.is_empty() {
            return Preview { parsed: None, runes: None };
        }
        proof {
            if parse_of(text@, table@) is Ok {
                lemma_parsed_base_is_known(text@, table@);
            }
        }
        let parsed = parse(text, table);
        let runes = match &parsed {
            Ok(item) => match item.to_weapon().with_different_runes(table) {
                Ok(rows) => Some(rows),
                Err(_) => None,
            },
            Err(_) => None,
        };
        Preview { parsed: Some(parsed), runes }
    }
}

} // verus!
