//! Input events and the fixed-size record that carries one across the
//! kernel boundary.

use vstd::prelude::*;

verus! {

/// Synchronization events.
pub const EV_SYN: u16 = 0x00;
/// Keys and buttons.
pub const EV_KEY: u16 = 0x01;
/// Relative axes.
pub const EV_REL: u16 = 0x02;
/// Absolute axes.
pub const EV_ABS: u16 = 0x03;
/// Miscellaneous events.
pub const EV_MSC: u16 = 0x04;
/// Switches.
pub const EV_SW: u16 = 0x05;
/// LEDs.
pub const EV_LED: u16 = 0x11;
/// Sounds.
pub const EV_SND: u16 = 0x12;
/// Autorepeat settings.
pub const EV_REP: u16 = 0x14;
/// Force feedback.
pub const EV_FF: u16 = 0x15;

/// The code of the synchronization event that closes a frame.
pub const SYN_REPORT: u16 = 0;
/// The horizontal relative axis.
pub const REL_X: u16 = 0x00;
/// The left mouse button.
pub const BTN_LEFT: u16 = 0x110;

/// Length of the timestamp that opens a record; the kernel fills it in.
pub const TIMESTAMP_LEN: usize = 16;
/// Length of one event record: timestamp, type, code and value.
pub const RECORD_LEN: usize = 24;

/// One input event: its type, its code within that type, and its value.
#[derive(Clone, Copy, Debug, PartialEq, Eq, Structural)]
pub struct InputEvent {
    pub type_: u16,
    pub code: u16,
    pub value: i32,
}

/// Whether `e` is the marker that closes a frame.
pub open spec fn is_sync_spec(e: InputEvent) -> bool {
    e.type_ == EV_SYN && e.code == SYN_REPORT
}

/// The two little-endian bytes of `x`.
pub open spec fn le16(x: u16) -> Seq<u8> {
    seq![(x & 0xff) as u8, ((x >> 8u16) & 0xff) as u8]
}

/// The four little-endian bytes of `x`.
pub open spec fn le32(x: u32) -> Seq<u8> {
    seq![
        (x & 0xff) as u8,
        ((x >> 8u32) & 0xff) as u8,
        ((x >> 16u32) & 0xff) as u8,
        ((x >> 24u32) & 0xff) as u8,
    ]
}

/// The record of `e`: a zero timestamp, then type, code and the value's
/// two's-complement bits, each little-endian.
pub open spec fn record_of(e: InputEvent) -> Seq<u8> {
    Seq::new(TIMESTAMP_LEN as nat, |i: int| 0u8) + le16(e.type_) + le16(e.code) + le32(
        e.value as u32,
    )
}

/// Reading two little-endian bytes gives back the integer that wrote them.
pub proof fn lemma_le16_round_trip(x: u16)
    ensures
        ((le16(x)[0] as u16) | ((le16(x)[1] as u16) << 8u16)) == x,
{
    assert((((x & 0xff) as u8) as u16) | ((((x >> 8u16) & 0xff) as u8) as u16) << 8u16 == x)
        by (bit_vector);
}

/// Reading four little-endian bytes gives back the integer that wrote them.
pub proof fn lemma_le32_round_trip(x: u32)
    ensures
        ((le32(x)[0] as u32) | ((le32(x)[1] as u32) << 8u32) | ((le32(x)[2] as u32) << 16u32)
            | ((le32(x)[3] as u32) << 24u32)) == x,
{
    assert((((x & 0xff) as u8) as u32) | ((((x >> 8u32) & 0xff) as u8) as u32) << 8u32 | ((((x
        >> 16u32) & 0xff) as u8) as u32) << 16u32 | ((((x >> 24u32) & 0xff) as u8) as u32)
        << 24u32 == x) by (bit_vector);
}

fn push_le16(out: &mut Vec<u8>, x: u16)
    ensures
        final(out)@ == old(out)@ + le16(x),
{
    out.push((x & 0xff) as u8);
    out.push(((x >> 8u16) & 0xff) as u8);
    assert(final(out)@ =~= old(out)@ + le16(x));
}

fn read_le16(b: &[u8], at: usize) -> (r: u16)
    requires
        at + 2 <= b@.len(),
    ensures
        r == ((b@[at as int] as u16) | ((b@[at + 1] as u16) << 8u16)),
{
    (b[at] as u16) | ((b[at + 1] as u16) << 8u16)
}

fn read_le32(b: &[u8], at: usize) -> (r: u32)
    requires
        at + 4 <= b@.len(),
    ensures
        r == ((b@[at as int] as u32) | ((b@[at + 1] as u32) << 8u32) | ((b@[at + 2] as u32)
            << 16u32) | ((b@[at + 3] as u32) << 24u32)),
{
    (b[at] as u32) | ((b[at + 1] as u32) << 8u32) | ((b[at + 2] as u32) << 16u32) | ((b[at
        + 3] as u32) << 24u32)
}

impl InputEvent {
    /// An event of the given type, code and value.
    pub fn new(type_: u16, code: u16, value: i32) -> (r: InputEvent)
        ensures
            r == (InputEvent { type_, code, value }),
    {
        InputEvent { type_, code, value }
    }

    /// The synchronization event that closes a frame.
    pub fn sync_report() -> (r: InputEvent)
        ensures
            r == (InputEvent { type_: EV_SYN, code: SYN_REPORT, value: 0 }),
            is_sync_spec(r),
    {
        InputEvent { type_: EV_SYN, code: SYN_REPORT, value: 0 }
    }

    /// Whether this event closes a frame.
    pub fn is_sync(&self) -> (r: bool)
        ensures
            r == is_sync_spec(*self),
    {
        self.type_ == EV_SYN && self.code == SYN_REPORT
    }

    /// The record that carries this event to the kernel.
    pub fn to_record(&self) -> (r: Vec<u8>)
        ensures
            r@ == record_of(*self),
            r@.len() == RECORD_LEN,
    {
        let mut out: Vec<u8> = Vec::new();
        let mut i: usize = 0;
        while i < TIMESTAMP_LEN
            invariant
                i <= TIMESTAMP_LEN,
                out@ == Seq::new(i as nat, |j: int| 0u8),
            decreases TIMESTAMP_LEN - i,
        {
            out.push(0u8);
            i = i + 1;
            assert(out@ =~= Seq::new(i as nat, |j: int| 0u8));
        }
        push_le16(&mut out, self.type_);
        push_le16(&mut out, self.code);
        let v = self.value as u32;
        out.push((v & 0xff) as u8);
        out.push(((v >> 8u32) & 0xff) as u8);
        out.push(((v >> 16u32) & 0xff) as u8);
        out.push(((v >> 24u32) & 0xff) as u8);
        assert(out@ =~= record_of(*self));
        out
    }

    /// The event that a record carries, whatever its timestamp; `None` when
    /// the record does not have the length of one.
    pub fn from_record(b: &[u8]) -> (r: Option<InputEvent>)
        ensures
            r.is_some() <==> b@.len() == RECORD_LEN,
            r.is_some() ==> record_of(r.unwrap()).subrange(
                TIMESTAMP_LEN as int,
                RECORD_LEN as int,
            ) == b@.subrange(TIMESTAMP_LEN as int, RECORD_LEN as int),
    {
        if b.len() != RECORD_LEN {
            return None;
        }
        let t = read_le16(b, 16);
        let c = read_le16(b, 18);
        let v = read_le32(b, 20);
        let e = InputEvent { type_: t, code: c, value: v as i32 };
        proof {
            let b0 = b@[16];
            let b1 = b@[17];
            assert(((((b0 as u16) | ((b1 as u16) << 8u16)) & 0xff) as u8) == b0 && (((((b0
                as u16) | ((b1 as u16) << 8u16)) >> 8u16) & 0xff) as u8) == b1) by (bit_vector);
            let c0 = b@[18];
            let c1 = b@[19];
            assert(((((c0 as u16) | ((c1 as u16) << 8u16)) & 0xff) as u8) == c0 && (((((c0
                as u16) | ((c1 as u16) << 8u16)) >> 8u16) & 0xff) as u8) == c1) by (bit_vector);
            let d0 = b@[20];
            let d1 = b@[21];
            let d2 = b@[22];
            let d3 = b@[23];
            let w = (d0 as u32) | ((d1 as u32) << 8u32) | ((d2 as u32) << 16u32) | ((d3 as u32)
                << 24u32);
            assert((w & 0xff) as u8 == d0 && ((w >> 8u32) & 0xff) as u8 == d1 && ((w >> 16u32)
                & 0xff) as u8 == d2 && ((w >> 24u32) & 0xff) as u8 == d3) by (bit_vector)
                requires
                    w == (d0 as u32) | ((d1 as u32) << 8u32) | ((d2 as u32) << 16u32) | ((d3
                        as u32) << 24u32),
            ;
            assert((w as i32) as u32 == w) by (bit_vector);
            assert(record_of(e).subrange(16, 24) =~= b@.subrange(16, 24));
        }
        Some(e)
    }
}

/// Reading a record back gives the event that wrote it.
pub proof fn lemma_record_round_trip(e: InputEvent, f: InputEvent)
    requires
        record_of(e).subrange(TIMESTAMP_LEN as int, RECORD_LEN as int) == record_of(f).subrange(
            TIMESTAMP_LEN as int,
            RECORD_LEN as int,
        ),
    ensures
        e == f,
{
    let se = record_of(e).subrange(16, 24);
    let sf = record_of(f).subrange(16, 24);
    assert(se[0] == sf[0] && se[1] == sf[1] && se[2] == sf[2] && se[3] == sf[3]);
    assert(se[4] == sf[4] && se[5] == sf[5] && se[6] == sf[6] && se[7] == sf[7]);
    lemma_le16_round_trip(e.type_);
    lemma_le16_round_trip(f.type_);
    lemma_le16_round_trip(e.code);
    lemma_le16_round_trip(f.code);
    lemma_le32_round_trip(e.value as u32);
    lemma_le32_round_trip(f.value as u32);
    let ve = e.value;
    let vf = f.value;
    assert((ve as u32) == (vf as u32) ==> ve == vf) by (bit_vector);
}

} // verus!
