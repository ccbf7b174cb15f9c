//! ISO-TP protocol data units: encoding into and decoding from CAN payloads.
//!
//! A PDU starts with a protocol control information (PCI) byte whose high
//! nibble gives its type: Single Frame (0), First Frame (1), Consecutive
//! Frame (2) or Flow Control (3). With extended addressing a target-address
//! byte precedes the PCI; `overhead` is the number of such leading bytes.

use vstd::prelude::*;

verus! {

/// Flow Control status.
#[derive(Debug, Clone, Copy, PartialEq, Eq, Structural)]
pub enum FcFlag {
    ContinueToSend,
    Wait,
    Overflow,
}

/// The low nibble of a Flow Control PCI for each status.
pub open spec fn fc_code(flag: FcFlag) -> u8 {
    match flag {
        FcFlag::ContinueToSend => 0u8,
        FcFlag::Wait => 1u8,
        FcFlag::Overflow => 2u8,
    }
}

/// The status a Flow Control PCI nibble stands for.
pub open spec fn fc_flag_of(code: int) -> Option<FcFlag> {
    if code == 0 {
        Some(FcFlag::ContinueToSend)
    } else if code == 1 {
        Some(FcFlag::Wait)
    } else if code == 2 {
        Some(FcFlag::Overflow)
    } else {
        None
    }
}

/// The mathematical content of a PDU.
pub enum Pdu {
    Single(Seq<u8>),
    First(nat, Seq<u8>),
    Consecutive(u8, Seq<u8>),
    FlowControl(FcFlag, u8, u8),
}

/// A decoded ISO-TP PDU.
#[derive(Debug, Clone, PartialEq, Eq)]
pub enum IsoTpFrame {
    /// A complete message in one frame.
    SingleFrame { data: Vec<u8> },
    /// The start of a segmented message: its total length and first bytes.
    FirstFrame { total_len: usize, data: Vec<u8> },
    /// A continuation of a segmented message.
    ConsecutiveFrame { sn: u8, data: Vec<u8> },
    /// Flow Control from the receiver of a segmented message.
    FlowControl { flag: FcFlag, block_size: u8, st_min: u8 },
}

impl View for IsoTpFrame {
    type V = Pdu;

    open spec fn view(&self) -> Pdu {
        match self {
            IsoTpFrame::SingleFrame { data } => Pdu::Single(data@),
            IsoTpFrame::FirstFrame { total_len, data } => Pdu::First(*total_len as nat, data@),
            IsoTpFrame::ConsecutiveFrame { sn, data } => Pdu::Consecutive(*sn, data@),
            IsoTpFrame::FlowControl { flag, block_size, st_min } => Pdu::FlowControl(
                *flag,
                *block_size,
                *st_min,
            ),
        }
    }
}

/// Big-endian value of four bytes.
pub open spec fn be32(b0: u8, b1: u8, b2: u8, b3: u8) -> nat {
    (b0 as nat) * 16777216 + (b1 as nat) * 65536 + (b2 as nat) * 256 + (b3 as nat)
}

/// Decode a CAN payload `b` whose PCI sits at offset `o`.
///
/// A Single Frame whose length nibble is zero is empty on a classic frame
/// and takes its length from the next byte on a frame longer than eight
/// bytes (the CAN FD escape). A First Frame whose 12-bit length is zero
/// takes a 32-bit length from the next four bytes, and is valid only when
/// its total length exceeds what it carries.
pub open spec fn parse_spec(b: Seq<u8>, o: int) -> Option<Pdu> {
    if o < 0 || b.len() <= o {
        None
    } else {
        let pci = b[o] / 16;
        let lo = b[o] % 16;
        if pci == 0 {
            if lo == 0 {
                if b.len() > 8 {
                    if b.len() >= o + 2 && (b[o + 1] as int) <= b.len() - o - 2 {
                        Some(Pdu::Single(b.subrange(o + 2, o + 2 + b[o + 1] as int)))
                    } else {
                        None
                    }
                } else {
                    Some(Pdu::Single(Seq::<u8>::empty()))
                }
            } else if (lo as int) <= b.len() - o - 1 {
                Some(Pdu::Single(b.subrange(o + 1, o + 1 + lo as int)))
            } else {
                None
            }
        } else if pci == 1 {
            if b.len() < o + 2 {
                None
            } else {
                let short = (lo as nat) * 256 + (b[o + 1] as nat);
                if short == 0 {
                    if b.len() < o + 6 {
                        None
                    } else {
                        let total = be32(b[o + 2], b[o + 3], b[o + 4], b[o + 5]);
                        let d = b.subrange(o + 6, b.len() as int);
                        if total > d.len() {
                            Some(Pdu::First(total, d))
                        } else {
                            None
                        }
                    }
                } else {
                    let d = b.subrange(o + 2, b.len() as int);
                    if short > d.len() {
                        Some(Pdu::First(short, d))
                    } else {
                        None
                    }
                }
            }
        } else if pci == 2 {
            Some(Pdu::Consecutive(lo, b.subrange(o + 1, b.len() as int)))
        } else if pci == 3 {
            if b.len() < o + 3 {
                None
            } else {
                match fc_flag_of(lo as int) {
                    Some(flag) => Some(Pdu::FlowControl(flag, b[o + 1], b[o + 2])),
                    None => None,
                }
            }
        } else {
            None
        }
    }
}

/// PCI and payload of a Single Frame.
pub open spec fn sf_bytes(data: Seq<u8>) -> Seq<u8> {
    seq![data.len() as u8] + data
}

/// Header of a First Frame announcing `n` bytes: two bytes up to 0xFFF,
/// otherwise the six-byte escape with a 32-bit length.
pub open spec fn ff_header(n: nat) -> Seq<u8> {
    if n <= 0xFFF {
        seq![(16 + n / 256) as u8, (n % 256) as u8]
    } else {
        seq![
            16u8,
            0u8,
            (n / 16777216) as u8,
            ((n / 65536) % 256) as u8,
            ((n / 256) % 256) as u8,
            (n % 256) as u8,
        ]
    }
}

/// How many payload bytes a First Frame of a classic frame carries.
pub open spec fn ff_data_len(n: nat, o: int) -> int {
    if n <= 0xFFF {
        6 - o
    } else {
        2 - o
    }
}

/// PCI and first payload bytes of a First Frame for message `data`.
pub open spec fn ff_bytes(data: Seq<u8>, o: int) -> Seq<u8> {
    ff_header(data.len()) + data.take(ff_data_len(data.len(), o))
}

/// PCI and payload of a Consecutive Frame.
pub open spec fn cf_bytes(sn: u8, chunk: Seq<u8>) -> Seq<u8> {
    seq![(32 + sn) as u8] + chunk
}

/// PCI and parameters of a Flow Control frame.
pub open spec fn fc_bytes(flag: FcFlag, block_size: u8, st_min: u8) -> Seq<u8> {
    seq![(48 + fc_code(flag)) as u8, block_size, st_min]
}

/// A frame padded to eight bytes with `pad`, when padding is configured.
pub open spec fn pad_frame(b: Seq<u8>, padding: Option<u8>) -> Seq<u8> {
    match padding {
        Some(p) => if b.len() < 8 {
            b + Seq::new((8 - b.len()) as nat, |_i: int| p)
        } else {
            b
        },
        None => b,
    }
}

/// Copy `b[start..end]` into a new vector.
pub fn copy_range(b: &[u8], start: usize, end: usize) -> (r: Vec<u8>)
    requires
        start <= end <= b@.len(),
    ensures
        r@ == b@.subrange(start as int, end as int),
{
    let mut v: Vec<u8> = Vec::new();
    v.extend_from_slice(&b[start..end]);
    v
}

/// Decode a CAN payload whose PCI sits at offset `overhead`.
///
/// Returns `None` when the bytes are not a valid PDU.
pub fn parse(b: &[u8], overhead: usize) -> (r: Option<IsoTpFrame>)
    ensures
        match r {
            Some(f) => parse_spec(b@, overhead as int) == Some(f@),
            None => parse_spec(b@, overhead as int) is None,
        },
{
    let n = b.len();
    let o = overhead;
    if n <= o {
        return None;
    }
    let pci = b[o] / 16;
    let lo = b[o] % 16;
    if pci == 0 {
        if lo == 0 {
            if n > 8 {
                if n - o >= 2 && (b[o + 1] as usize) <= n - o - 2 {
                    let len = b[o + 1] as usize;
                    Some(IsoTpFrame::SingleFrame { data: copy_range(b, o + 2, o + 2 + len) })
                } else {
                    None
                }
            } else {
                Some(IsoTpFrame::SingleFrame { data: Vec::new() })
            }
        } else if (lo as usize) <= n - o - 1 {
            Some(IsoTpFrame::SingleFrame { data: copy_range(b, o + 1, o + 1 + lo as usize) })
        } else {
            None
        }
    } else if pci == 1 {
        if n - o < 2 {
            None
        } else {
            let short: u32 = (lo as u32) * 256 + (b[o + 1] as u32);
            if short == 0 {
                if n - o < 6 {
                    None
                } else {
                    let total: u32 = (b[o + 2] as u32) * 16777216 + (b[o + 3] as u32) * 65536 + (
                    b[o + 4] as u32) * 256 + (b[o + 5] as u32);
                    if (total as u64) > ((n - o - 6) as u64) {
                        Some(
                            IsoTpFrame::FirstFrame {
                                total_len: total as usize,
                                data: copy_range(b, o + 6, n),
                            },
                        )
                    } else {
                        None
                    }
                }
            } else {
                if (short as usize) > n - o - 2 {
                    Some(
                        IsoTpFrame::FirstFrame {
                            total_len: short as usize,
                            data: copy_range(b, o + 2, n),
                        },
                    )
                } else {
                    None
                }
            }
        }
    } else if pci == 2 {
        Some(IsoTpFrame::ConsecutiveFrame { sn: lo, data: copy_range(b, o + 1, n) })
    } else if pci == 3 {
        if n - o < 3 {
            None
        } else if lo == 0 {
            Some(
                IsoTpFrame::FlowControl {
                    flag: FcFlag::ContinueToSend,
                    block_size: b[o + 1],
                    st_min: b[o + 2],
                },
            )
        } else if lo == 1 {
            Some(
                IsoTpFrame::FlowControl { flag: FcFlag::Wait, block_size: b[o + 1], st_min: b[o + 2] },
            )
        } else if lo == 2 {
            Some(
                IsoTpFrame::FlowControl {
                    flag: FcFlag::Overflow,
                    block_size: b[o + 1],
                    st_min: b[o + 2],
                },
            )
        } else {
            None
        }
    } else {
        None
    }
}


/// Append `b` to `v`.
fn push_all(v: &mut Vec<u8>, b: &[u8])
    ensures
        final(v)@ == old(v)@ + b@,
{
    v.extend_from_slice(b);
}

/// Encode a Single Frame: `prefix` (the addressing bytes), the length PCI,
/// then the payload.
pub fn build_sf(prefix: &[u8], data: &[u8]) -> (r: Vec<u8>)
    requires
        data@.len() <= 7,
    ensures
        r@ == prefix@ + sf_bytes(data@),
{
    let mut v: Vec<u8> = Vec::new();
    push_all(&mut v, prefix);
    v.push(data.len() as u8);
    push_all(&mut v, data);
    assert(v@ == prefix@ + sf_bytes(data@));
    v
}

/// Encode a First Frame announcing `data.len()` bytes and carrying as many
/// of them as fit in a classic frame after `prefix`.
pub fn build_ff(prefix: &[u8], data: &[u8]) -> (r: Vec<u8>)
    requires
        prefix@.len() <= 1,
        7 - prefix@.len() < data@.len() <= u32::MAX,
    ensures
        r@ == prefix@ + ff_bytes(data@, prefix@.len() as int),
        r@.len() == 8,
{
    let n = data.len();
    let o = prefix.len();
    let mut v: Vec<u8> = Vec::new();
    push_all(&mut v, prefix);
    let take;
    if n <= 0xFFF {
        v.push((16 + n / 256) as u8);
        v.push((n % 256) as u8);
        take = 6 - o;
    } else {
        let m = n as u32;
        v.push(16u8);
        v.push(0u8);
        v.push((m / 16777216) as u8);
        v.push(((m / 65536) % 256) as u8);
        v.push(((m / 256) % 256) as u8);
        v.push((m % 256) as u8);
        take = 2 - o;
    }
    let ghost hdr = v@;
    push_all(&mut v, &data[0..take]);
    assert(hdr == prefix@ + ff_header(data@.len()));
    assert(data@.subrange(0, take as int) == data@.take(take as int));
    assert(v@ == prefix@ + ff_bytes(data@, prefix@.len() as int));
    v
}

/// Encode a Consecutive Frame with sequence number `sn` carrying `chunk`.
pub fn build_cf(prefix: &[u8], sn: u8, chunk: &[u8]) -> (r: Vec<u8>)
    requires
        sn < 16,
    ensures
        r@ == prefix@ + cf_bytes(sn, chunk@),
{
    let mut v: Vec<u8> = Vec::new();
    push_all(&mut v, prefix);
    v.push(32 + sn);
    push_all(&mut v, chunk);
    assert(v@ == prefix@ + cf_bytes(sn, chunk@));
    v
}

/// Encode a Flow Control frame.
pub fn build_fc(prefix: &[u8], flag: FcFlag, block_size: u8, st_min: u8) -> (r: Vec<u8>)
    ensures
        r@ == prefix@ + fc_bytes(flag, block_size, st_min),
{
    let code: u8 = match flag {
        FcFlag::ContinueToSend => 0,
        FcFlag::Wait => 1,
        FcFlag::Overflow => 2,
    };
    let mut v: Vec<u8> = Vec::new();
    push_all(&mut v, prefix);
    v.push(48 + code);
    v.push(block_size);
    v.push(st_min);
    assert(v@ == prefix@ + fc_bytes(flag, block_size, st_min));
    v
}

/// Pad a frame of at most eight bytes up to eight with the configured byte.
pub fn pad(frame: &mut Vec<u8>, padding: Option<u8>)
    ensures
        final(frame)@ == pad_frame(old(frame)@, padding),
{
    if let Some(p) = padding {
        if frame.len() < 8 {
            let ghost start = frame@;
            let k = frame.len();
            while frame.len() < 8
                invariant
                    k <= frame@.len() <= 8,
                    frame@.take(k as int) == start,
                    start.len() == k,
                    forall|i: int| k <= i < frame@.len() ==> frame@[i] == p,
                decreases 8 - frame@.len(),
            {
                frame.push(p);
            }
            assert(frame@ == start + Seq::new((8 - k) as nat, |_i: int| p));
        }
    }
}

/// A Single Frame decodes to the payload it was built from, padded or not.
pub proof fn lemma_sf_roundtrip(prefix: Seq<u8>, data: Seq<u8>, padding: Option<u8>)
    requires
        prefix.len() <= 1,
        data.len() <= 7 - prefix.len(),
    ensures
        parse_spec(pad_frame(prefix + sf_bytes(data), padding), prefix.len() as int) == Some(
            Pdu::Single(data),
        ),
{
    let o = prefix.len() as int;
    let raw = prefix + sf_bytes(data);
    let b = pad_frame(raw, padding);
    assert(b.len() <= 8);
    assert(b.take(raw.len() as int) == raw);
    assert(b[o] == raw[o]);
    assert(raw[o] == data.len() as u8);
    assert(b[o] / 16 == 0);
    assert(b[o] % 16 == data.len());
    if data.len() == 0 {
        assert(data =~= Seq::<u8>::empty());
    } else {
        assert(b.subrange(o + 1, o + 1 + data.len()) =~= data);
    }
}

/// The First Frame header decodes to the announced length.
proof fn lemma_ff_header_fields(n: nat)
    requires
        0 < n <= u32::MAX,
    ensures
        ff_header(n)[0] / 16 == 1,
        n <= 0xFFF ==> (ff_header(n)[0] % 16) as nat * 256 + ff_header(n)[1] as nat == n,
        n > 0xFFF ==> ff_header(n)[0] % 16 == 0 && ff_header(n)[1] == 0,
        n > 0xFFF ==> be32(ff_header(n)[2], ff_header(n)[3], ff_header(n)[4], ff_header(n)[5])
            == n,
        ff_header(n).len() == (if n <= 0xFFF { 2int } else { 6int }),
{
    if n <= 0xFFF {
        assert((16 + n / 256) < 256) by (nonlinear_arith)
            requires
                n <= 0xFFF,
        ;
        assert(((16 + n / 256) as u8) / 16 == 1 && ((16 + n / 256) as u8) % 16 == n / 256)
            by (nonlinear_arith)
            requires
                n <= 0xFFF,
        ;
        assert((n / 256) * 256 + n % 256 == n) by (nonlinear_arith);
    } else {
        let b0 = n / 16777216;
        let b1 = (n / 65536) % 256;
        let b2 = (n / 256) % 256;
        let b3 = n % 256;
        assert(b0 < 256) by (nonlinear_arith)
            requires
                n <= u32::MAX,
                b0 == n / 16777216,
        ;
        assert(b0 * 16777216 + b1 * 65536 + b2 * 256 + b3 == n) by (nonlinear_arith)
            requires
                b0 == n / 16777216,
                b1 == (n / 65536) % 256,
                b2 == (n / 256) % 256,
                b3 == n % 256,
        {
            assert(n == (n / 256) * 256 + b3);
            assert(n / 256 == (n / 65536) * 256 + b2) by {
                assert((n / 256) / 256 == n / 65536);
            }
            assert(n / 65536 == (n / 16777216) * 256 + b1) by {
                assert((n / 65536) / 256 == n / 16777216);
            }
        }
    }
}

/// A First Frame decodes to the message length and the bytes it carries.
pub proof fn lemma_ff_roundtrip(prefix: Seq<u8>, data: Seq<u8>, padding: Option<u8>)
    requires
        prefix.len() <= 1,
        7 - prefix.len() < data.len() <= u32::MAX,
    ensures
        parse_spec(pad_frame(prefix + ff_bytes(data, prefix.len() as int), padding), prefix.len() as int)
            == Some(Pdu::First(data.len(), data.take(ff_data_len(data.len(), prefix.len() as int)))),
{
    let o = prefix.len() as int;
    let n = data.len();
    let hdr = ff_header(n);
    let raw = prefix + ff_bytes(data, o);
    lemma_ff_header_fields(n);
    let k = ff_data_len(n, o);
    assert(raw.len() == 8);
    assert(pad_frame(raw, padding) == raw);
    assert(raw[o] == hdr[0]);
    assert(raw[o + 1] == hdr[1]);
    if n <= 0xFFF {
        assert(raw.subrange(o + 2, 8) =~= data.take(k));
    } else {
        assert(raw[o + 2] == hdr[2]);
        assert(raw[o + 3] == hdr[3]);
        assert(raw[o + 4] == hdr[4]);
        assert(raw[o + 5] == hdr[5]);
        assert(raw.subrange(o + 6, 8) =~= data.take(k));
    }
}

/// A Consecutive Frame decodes to its sequence number and a payload that
/// starts with the chunk it was built from (padding may follow).
pub proof fn lemma_cf_roundtrip(prefix: Seq<u8>, sn: u8, chunk: Seq<u8>, padding: Option<u8>)
    requires
        prefix.len() <= 1,
        sn < 16,
        chunk.len() <= 7 - prefix.len(),
    ensures
        parse_spec(pad_frame(prefix + cf_bytes(sn, chunk), padding), prefix.len() as int) matches Some(
            Pdu::Consecutive(s, d),
        ) && s == sn && chunk.len() <= d.len() && d.take(chunk.len() as int) == chunk,
        padding is None ==> parse_spec(prefix + cf_bytes(sn, chunk), prefix.len() as int) == Some(
            Pdu::Consecutive(sn, chunk),
        ),
{
    let o = prefix.len() as int;
    let raw = prefix + cf_bytes(sn, chunk);
    let b = pad_frame(raw, padding);
    assert(b.take(raw.len() as int) == raw);
    assert(b[o] == raw[o]);
    assert(raw[o] == (32 + sn) as u8);
    assert(b[o] / 16 == 2 && b[o] % 16 == sn);
    let d = b.subrange(o + 1, b.len() as int);
    assert(d.take(chunk.len() as int) =~= chunk);
    assert(raw.subrange(o + 1, raw.len() as int) =~= chunk);
}

/// A Flow Control frame decodes to its status and parameters.
pub proof fn lemma_fc_roundtrip(
    prefix: Seq<u8>,
    flag: FcFlag,
    block_size: u8,
    st_min: u8,
    padding: Option<u8>,
)
    requires
        prefix.len() <= 1,
    ensures
        parse_spec(pad_frame(prefix + fc_bytes(flag, block_size, st_min), padding), prefix.len() as int)
            == Some(Pdu::FlowControl(flag, block_size, st_min)),
{
    let o = prefix.len() as int;
    let raw = prefix + fc_bytes(flag, block_size, st_min);
    let b = pad_frame(raw, padding);
    assert(b.take(raw.len() as int) == raw);
    assert(b[o] == raw[o]);
    assert(b[o + 1] == block_size);
    assert(b[o + 2] == st_min);
    assert(b[o] / 16 == 3 && b[o] % 16 == fc_code(flag));
}

} // verus!
