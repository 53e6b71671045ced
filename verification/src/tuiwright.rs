//! UX-QA receipts: the certified-frame ledger, its deterministic stamp and the
//! frame hash.
//!
//! A receipt is reproducible by construction: the stamp is derived from an
//! injected `SOURCE_DATE_EPOCH` value (never the wall clock) and the frame hash
//! is a pure FNV-1a over the flattened cell text.

use vstd::prelude::*;

use vstd::string::StringSliceAdditionalSpecFns;

use crate::app::{tab_label, ActiveTab};
use crate::text::{chars_of, hex_fixed, push_char, push_hex_fixed, push_zero_padded, zero_padded};

verus! {

/// The terminal geometries the UX-QA sweep certifies: the compact 80x24
/// baseline and the wide 120x40 layout.
pub const SWEEP_SIZES: [(u16, u16); 2] = [(80, 24), (120, 40)];

/// Stable stamp used when no epoch is provided or it cannot be read.
pub const DEFAULT_STAMP: &'static str = "1970-01-01T00:00:00Z";

/// Schema tag of a receipt.
pub const RECEIPT_KIND: &'static str = "tuiwright.ux-qa";

/// One certified frame of a receipt.
#[derive(Debug, Clone, PartialEq, Eq)]
pub struct FrameRecord {
    /// Label of the rendered tab.
    pub tab: String,
    /// Terminal width the frame was rendered at.
    pub width: u16,
    /// Terminal height the frame was rendered at.
    pub height: u16,
    /// Fixture family the frame was rendered from (e.g. `healthy`).
    pub fixture: String,
    /// Hex FNV-1a hash of the flattened cell text.
    pub frame_hash: String,
    /// Whether the frame rendered cleanly.
    pub ok: bool,
}

/// A UX-QA receipt: the stamp plus every certified frame.
#[derive(Debug, Clone, PartialEq, Eq)]
pub struct TuiwrightReceipt {
    /// Receipt schema tag.
    pub kind: String,
    /// ISO-8601 stamp.
    pub stamp: String,
    /// The per-frame ledger.
    pub frames: Vec<FrameRecord>,
}

/// Number of frames of a ledger that rendered cleanly.
pub open spec fn ok_frames(frames: Seq<FrameRecord>) -> nat {
    frames.filter(|f: FrameRecord| f.ok).len()
}

/// Whether a ledger certifies `tab` at `width`x`height` for `fixture`.
pub open spec fn ledger_covers(
    frames: Seq<FrameRecord>,
    tab: ActiveTab,
    width: u16,
    height: u16,
    fixture: Seq<char>,
) -> bool {
    exists|i: int|
        0 <= i < frames.len() && (#[trigger] frames[i]).tab@ == tab_label(tab) && frames[i].width
            == width && frames[i].height == height && frames[i].fixture@ == fixture
}

impl TuiwrightReceipt {
    /// Total number of certified frames.
    pub fn len(&self) -> (r: usize)
        ensures
            r == self.frames@.len(),
    {
        self.frames.len()
    }

    /// Whether the receipt has no frames.
    pub fn is_empty(&self) -> (r: bool)
        ensures
            r == (self.frames@.len() == 0),
    {
        self.frames.len() == 0
    }

    /// Number of frames that rendered cleanly.
    pub fn ok_count(&self) -> (r: usize)
        ensures
            r == ok_frames(self.frames@),
    {
        let mut count: usize = 0;
        let mut i: usize = 0;
        while i < self.frames.len()
            invariant
                i <= self.frames@.len(),
                count == ok_frames(self.frames@.take(i as int)),
                count <= i,
            decreases self.frames@.len() - i,
        {
            proof {
                assert(self.frames@.take(i + 1).drop_last() =~= self.frames@.take(i as int));
                reveal_with_fuel(Seq::<_>::filter, 1);
            }
            if self.frames[i].ok {
                count = count + 1;
            }
            i = i + 1;
        }
        assert(self.frames@.take(self.frames@.len() as int) =~= self.frames@);
        count
    }

    /// Whether the receipt covers `tab` at `width`x`height` for `fixture`.
    pub fn covers(&self, tab: ActiveTab, width: u16, height: u16, fixture: &str) -> (r: bool)
        ensures
            r == ledger_covers(self.frames@, tab, width, height, fixture@),
    {
        let label = tab.label().to_owned();
        let wanted = fixture.to_owned();
        let mut i: usize = 0;
        while i < self.frames.len()
            invariant
                i <= self.frames@.len(),
                label@ == tab_label(tab),
                wanted@ == fixture@,
                forall|j: int|
                    0 <= j < i ==> !((#[trigger] self.frames@[j]).tab@ == tab_label(tab)
                        && self.frames@[j].width == width && self.frames@[j].height == height
                        && self.frames@[j].fixture@ == fixture@),
            decreases self.frames@.len() - i,
        {
            let f = &self.frames[i];
            if f.tab == label && f.width == width && f.height == height && f.fixture == wanted {
                return true;
            }
            i = i + 1;
        }
        false
    }
}

/// No more frames render cleanly than the ledger holds.
pub proof fn lemma_ok_frames_bounded(frames: Seq<FrameRecord>)
    ensures
        ok_frames(frames) <= frames.len(),
{
    frames.lemma_filter_len(|f: FrameRecord| f.ok);
}

// ── Deterministic stamp ─────────────────────────────────────────────────

/// Whether `c` is an ASCII decimal digit.
pub open spec fn is_digit(c: char) -> bool {
    '0' <= c <= '9'
}

/// Value of a run of decimal digits, most significant first.
pub open spec fn digits_value(s: Seq<char>) -> int
    decreases s.len(),
{
    if s.len() == 0 {
        0
    } else {
        digits_value(s.drop_last()) * 10 + ((s.last() as u32) - 48)
    }
}

/// What `str::parse::<i64>` accepts: an optional `+` or `-` sign followed by
/// one or more ASCII digits, whose value fits in an `i64`.
pub open spec fn parsed_i64(s: Seq<char>) -> Option<i64> {
    let neg = s.len() > 0 && s[0] == '-';
    let body = if s.len() > 0 && (s[0] == '-' || s[0] == '+') {
        s.drop_first()
    } else {
        s
    };
    if body.len() == 0 || !(forall|i: int| 0 <= i < body.len() ==> is_digit(#[trigger] body[i])) {
        None
    } else {
        let v = if neg {
            -digits_value(body)
        } else {
            digits_value(body)
        };
        if i64::MIN <= v <= i64::MAX {
            Some(v as i64)
        } else {
            None
        }
    }
}

/// Parse a decimal `i64` with `str::parse`.
#[verifier::external_body]
fn parse_i64(s: &str) -> (r: Option<i64>)
    ensures
        r == parsed_i64(s@),
{
    s.parse::<i64>().ok()
}

/// Civil date `(year, month, day)` of a day count since 1970-01-01 (days
/// `>= 0`), by the days-to-civil conversion over 400-year eras.
pub open spec fn civil_from_days(days: int) -> (int, int, int) {
    let z = days + 719468;
    let era = z / 146097;
    let doe = z - era * 146097;
    let yoe = (doe - doe / 1460 + doe / 36524 - doe / 146096) / 365;
    let y = yoe + era * 400;
    let doy = doe - (365 * yoe + yoe / 4 - yoe / 100);
    let mp = (5 * doy + 2) / 153;
    let d = doy - (153 * mp + 2) / 5 + 1;
    let m = if mp < 10 {
        mp + 3
    } else {
        mp - 9
    };
    let y = if m <= 2 {
        y + 1
    } else {
        y
    };
    (y, m, d)
}

/// `YYYY-MM-DDTHH:MM:SSZ` rendering of a non-negative Unix timestamp.
pub open spec fn iso_of_secs(secs: int) -> Seq<char> {
    let days = secs / 86400;
    let rem = secs % 86400;
    let (y, m, d) = civil_from_days(days);
    zero_padded(y as nat, 4) + "-"@ + zero_padded(m as nat, 2) + "-"@ + zero_padded(d as nat, 2)
        + "T"@ + zero_padded((rem / 3600) as nat, 2) + ":"@ + zero_padded(
        ((rem % 3600) / 60) as nat,
        2,
    ) + ":"@ + zero_padded((rem % 60) as nat, 2) + "Z"@
}

/// The stamp derived from an epoch text: the ISO instant of a parsed,
/// non-negative number of seconds, else the default stamp.
pub open spec fn stamp_of(raw: Seq<char>) -> Seq<char> {
    match parsed_i64(raw) {
        Some(secs) => if secs >= 0 {
            iso_of_secs(secs as int)
        } else {
            DEFAULT_STAMP@
        },
        None => DEFAULT_STAMP@,
    }
}

/// Format a Unix timestamp (seconds, UTC) as `YYYY-MM-DDTHH:MM:SSZ`; `None`
/// for negative timestamps.
pub fn chrono_like_iso(secs: i64) -> (r: Option<String>)
    ensures
        match r {
            Some(s) => secs >= 0 && s@ == iso_of_secs(secs as int),
            None => secs < 0,
        },
{
    if secs < 0 {
        return None;
    }
    let days = secs / 86_400;
    let rem = secs % 86_400;
    let hh = rem / 3600;
    let mm = (rem % 3600) / 60;
    let ss = rem % 60;
    let z = days + 719_468;
    let era = z / 146_097;
    let doe = z - era * 146_097;
    proof {
        assert(0 <= doe < 146097) by (nonlinear_arith)
            requires
                z >= 0,
                era == z / 146097,
                doe == z - era * 146097,
        ;
    }
    let yoe = (doe - doe / 1460 + doe / 36_524 - doe / 146_096) / 365;
    proof {
        assert(0 <= yoe < 400) by (nonlinear_arith)
            requires
                0 <= doe < 146097,
                yoe == (doe - doe / 1460 + doe / 36524 - doe / 146096) / 365,
        ;
    }
    let y = yoe + era * 400;
    let doy = doe - (365 * yoe + yoe / 4 - yoe / 100);
    proof {
        assert(0 <= doy < 366) by (nonlinear_arith)
            requires
                0 <= doe < 146097,
                yoe == (doe - doe / 1460 + doe / 36524 - doe / 146096) / 365,
                doy == doe - (365 * yoe + yoe / 4 - yoe / 100),
        ;
    }
    let mp = (5 * doy + 2) / 153;
    let d = doy - (153 * mp + 2) / 5 + 1;
    let m = if mp < 10 {
        mp + 3
    } else {
        mp - 9
    };
    let y = if m <= 2 {
        y + 1
    } else {
        y
    };
    proof {
        assert(0 <= mp < 12);
        assert(1 <= d <= 31);
        assert(y >= 0);
    }
    let mut out = String::new();
    push_zero_padded(&mut out, y as u64, 4);
    push_char(&mut out, '-');
    push_zero_padded(&mut out, m as u64, 2);
    push_char(&mut out, '-');
    push_zero_padded(&mut out, d as u64, 2);
    push_char(&mut out, 'T');
    push_zero_padded(&mut out, hh as u64, 2);
    push_char(&mut out, ':');
    push_zero_padded(&mut out, mm as u64, 2);
    push_char(&mut out, ':');
    push_zero_padded(&mut out, ss as u64, 2);
    push_char(&mut out, 'Z');
    proof {
        reveal_strlit("-");
        reveal_strlit("T");
        reveal_strlit(":");
        reveal_strlit("Z");
        assert(out@ =~= iso_of_secs(secs as int));
    }
    Some(out)
}

/// The receipt stamp of an epoch text (seconds since the Unix epoch): its ISO
/// instant, or [`DEFAULT_STAMP`] when it does not parse or is negative.
pub fn stamp_from_epoch(raw: &str) -> (r: String)
    ensures
        r@ == stamp_of(raw@),
{
    let secs: i64 = match parse_i64(raw) {
        Some(s) => s,
        None => return DEFAULT_STAMP.to_owned(),
    };
    match chrono_like_iso(secs) {
        Some(iso) => iso,
        None => DEFAULT_STAMP.to_owned(),
    }
}

// ── Receipt file name ───────────────────────────────────────────────────

/// `stamp` with every `:` replaced by `-`, so it can stand in a file name.
pub open spec fn file_safe_stamp(stamp: Seq<char>) -> Seq<char> {
    Seq::new(stamp.len(), |i: int| if stamp[i] == ':' { '-' } else { stamp[i] })
}

/// The file name a receipt with `stamp` is written under:
/// `tuiwright-<stamp>.json`, with `:` in the stamp replaced by `-`.
pub fn receipt_file_name(stamp: &str) -> (r: String)
    ensures
        r@ == "tuiwright-"@ + file_safe_stamp(stamp@) + ".json"@,
{
    let chars = chars_of(stamp);
    let mut out = "tuiwright-".to_owned();
    let ghost prefix = out@;
    let mut i: usize = 0;
    while i < chars.len()
        invariant
            chars@ == stamp@,
            i <= chars@.len(),
            out@ == prefix + file_safe_stamp(stamp@).take(i as int),
        decreases chars@.len() - i,
    {
        let c = chars[i];
        if c == ':' {
            push_char(&mut out, '-');
        } else {
            push_char(&mut out, c);
        }
        i = i + 1;
        assert(out@ =~= prefix + file_safe_stamp(stamp@).take(i as int));
    }
    assert(file_safe_stamp(stamp@).take(chars@.len() as int) =~= file_safe_stamp(stamp@));
    out.append(".json");
    out
}

// ── Frame hash ──────────────────────────────────────────────────────────

/// FNV-1a 64-bit offset basis.
pub const FNV_OFFSET: u64 = 0xcbf2_9ce4_8422_2325;

/// FNV-1a 64-bit prime.
pub const FNV_PRIME: u64 = 0x0000_0100_0000_01b3;

/// FNV-1a hash of a byte string.
pub open spec fn fnv1a(bytes: Seq<u8>) -> u64
    decreases bytes.len(),
{
    if bytes.len() == 0 {
        FNV_OFFSET
    } else {
        (fnv1a(bytes.drop_last()) ^ (bytes.last() as u64)).wrapping_mul(FNV_PRIME)
    }
}

/// Deterministic FNV-1a hash of the flattened cell text, as sixteen lowercase
/// hexadecimal digits.
pub fn frame_hash(ink: &str) -> (r: String)
    ensures
        r@ == hex_fixed(fnv1a(ink.spec_bytes()) as nat, 16),
{
    let bytes = ink.as_bytes();
    let mut h: u64 = FNV_OFFSET;
    let mut i: usize = 0;
    while i < bytes.len()
        invariant
            bytes@ == ink.spec_bytes(),
            i <= bytes@.len(),
            h == fnv1a(bytes@.take(i as int)),
        decreases bytes@.len() - i,
    {
        proof {
            assert(bytes@.take(i + 1).drop_last() =~= bytes@.take(i as int));
        }
        h = h ^ (bytes[i] as u64);
        h = h.wrapping_mul(FNV_PRIME);
        i = i + 1;
    }
    assert(bytes@.take(bytes@.len() as int) =~= bytes@);
    let mut out = String::new();
    push_hex_fixed(&mut out, h, 16);
    out
}

/// A frame hash is always sixteen lowercase hexadecimal digits, whatever the
/// frame holds.
pub proof fn lemma_frame_hash_shape(bytes: Seq<u8>)
    ensures
        hex_fixed(fnv1a(bytes) as nat, 16).len() == 16,
        forall|i: int|
            0 <= i < 16 ==> crate::text::is_lower_hex(#[trigger] hex_fixed(fnv1a(bytes) as nat, 16)[i]),
{
    crate::text::lemma_hex_fixed_shape(fnv1a(bytes) as nat, 16);
}

} // verus!

