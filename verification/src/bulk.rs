//! The bulk-transfer engines: the 12-byte header codec, the write engine
//! that segments an outbound payload into transactions and padded wire
//! transfers, and the read engine that reassembles an inbound message from
//! its fragments.

use crate::constants::{
    APPLICATION_BUFFER_SIZE, DEFAULT_TERM_CHAR, DEVICE_DEPENDENT_MSG_OUT,
    REQUEST_DEVICE_DEPENDENT_MSG_IN, REQUEST_VENDOR_SPECIFIC_MSG_IN, USBTMC_HEADER_SIZE,
    VENDOR_SPECIFIC_MSG_OUT,
};
use crate::error::Error;
use crate::types::{
    is_valid_bulk_in, is_valid_bulk_out, lemma_advance_btag_n_front, spec_advance_btag,
    spec_advance_btag_n, BTag, Capabilities, Direction, Endpoint, TransferType,
};
use vstd::prelude::*;
use vstd::seq_lib::lemma_flatten_concat;

verus! {

// ==========================================================================
// Header codec
// ==========================================================================

/// The common 12-byte layout of every USBTMC bulk-transfer header:
/// message id, bTag, complement of bTag, a reserved zero, the transfer
/// size in little-endian order, the attribute byte, the terminator
/// character slot, and two reserved zeros.
pub open spec fn spec_bulk_header(
    msg_id: u8,
    btag: u8,
    transfer_size: u32,
    attributes: u8,
    term_char: u8,
) -> Seq<u8> {
    seq![
        msg_id,
        btag,
        !btag,
        0u8,
        (transfer_size as int % 256) as u8,
        (transfer_size as int / 256 % 256) as u8,
        (transfer_size as int / 65536 % 256) as u8,
        (transfer_size as int / 16777216 % 256) as u8,
        attributes,
        term_char,
        0u8,
        0u8,
    ]
}

/// The header of a DEV_DEP_MSG_OUT transaction.
pub open spec fn spec_dev_dep_out_header(btag: u8, transfer_size: u32, end_of_message: bool) -> Seq<
    u8,
> {
    spec_bulk_header(
        DEVICE_DEPENDENT_MSG_OUT,
        btag,
        transfer_size,
        if end_of_message {
            1u8
        } else {
            0u8
        },
        0u8,
    )
}

/// The header of a REQUEST_DEV_DEP_MSG_IN request.
pub open spec fn spec_request_dev_dep_in_header(
    btag: u8,
    transfer_size: u32,
    term_char: Option<u8>,
) -> Seq<u8> {
    spec_bulk_header(
        REQUEST_DEVICE_DEPENDENT_MSG_IN,
        btag,
        transfer_size,
        if term_char is Some {
            2u8
        } else {
            0u8
        },
        if term_char is Some {
            term_char->0
        } else {
            0u8
        },
    )
}

/// Every bulk header carries the bitwise complement of its bTag in byte 2.
pub proof fn lemma_header_complement(
    msg_id: u8,
    btag: u8,
    transfer_size: u32,
    attributes: u8,
    term_char: u8,
)
    ensures
        spec_bulk_header(msg_id, btag, transfer_size, attributes, term_char)[2]
            == !spec_bulk_header(msg_id, btag, transfer_size, attributes, term_char)[1],
{
}

/// Builds the exec form of `spec_bulk_header`.
fn build_bulk_header(msg_id: u8, btag: u8, transfer_size: u32, attributes: u8, term_char: u8) -> (r:
    [u8; 12])
    ensures
        r@ == spec_bulk_header(msg_id, btag, transfer_size, attributes, term_char),
{
    let s0 = (transfer_size % 256) as u8;
    let s1 = (transfer_size / 256 % 256) as u8;
    let s2 = (transfer_size / 65536 % 256) as u8;
    let s3 = (transfer_size / 16777216 % 256) as u8;
    let header: [u8; 12] = [
        msg_id,
        btag,
        !btag,
        0,
        s0,
        s1,
        s2,
        s3,
        attributes,
        term_char,
        0,
        0,
    ];
    proof {
        assert(header@ =~= spec_bulk_header(msg_id, btag, transfer_size, attributes, term_char));
    }
    header
}

/// Builds the header of one DEV_DEP_MSG_OUT transaction: message id 1, the
/// transaction's bTag and its complement, the payload size of the
/// transaction, and the end-of-message flag in bit 0 of the attribute byte.
pub fn device_dependent_msg_out_header(btag: u8, transfer_size: u32, end_of_message: bool) -> (r:
    Result<[u8; 12], Error>)
    ensures
        r matches Ok(h) && h@ == spec_dev_dep_out_header(btag, transfer_size, end_of_message),
{
    let attributes: u8 = if end_of_message {
        1
    } else {
        0
    };
    Ok(build_bulk_header(DEVICE_DEPENDENT_MSG_OUT, btag, transfer_size, attributes, 0))
}

/// Builds the header of a REQUEST_DEV_DEP_MSG_IN request: message id 2, the
/// requested size, and, when a terminator character is supplied, bit 1 of
/// the attribute byte set and the character in byte 9.
pub fn request_device_dependent_msg_in_header(
    btag: u8,
    transfer_size: u32,
    term_char: Option<u8>,
) -> (r: Result<[u8; 12], Error>)
    ensures
        r matches Ok(h) && h@ == spec_request_dev_dep_in_header(btag, transfer_size, term_char),
{
    let (attributes, term): (u8, u8) = match term_char {
        Some(tc) => (2, tc),
        None => (0, 0),
    };
    Ok(build_bulk_header(REQUEST_DEVICE_DEPENDENT_MSG_IN, btag, transfer_size, attributes, term))
}

/// Builds the header of a VENDOR_SPECIFIC_MSG_OUT transaction: message id
/// 126 and the payload size; the attribute byte stays clear.
pub fn _vendor_specific_out_header(btag: u8, transfer_size: u32) -> (r: Result<[u8; 12], Error>)
    ensures
        r matches Ok(h) && h@ == spec_bulk_header(
            VENDOR_SPECIFIC_MSG_OUT,
            btag,
            transfer_size,
            0u8,
            0u8,
        ),
{
    Ok(build_bulk_header(VENDOR_SPECIFIC_MSG_OUT, btag, transfer_size, 0, 0))
}

/// Builds the header of a REQUEST_VENDOR_SPECIFIC_MSG_IN request: message
/// id 127 and the requested size; the attribute byte stays clear.
pub fn _request_vendor_specific_in_header(btag: u8, transfer_size: u32) -> (r: Result<
    [u8; 12],
    Error,
>)
    ensures
        r matches Ok(h) && h@ == spec_bulk_header(
            REQUEST_VENDOR_SPECIFIC_MSG_IN,
            btag,
            transfer_size,
            0u8,
            0u8,
        ),
{
    Ok(build_bulk_header(REQUEST_VENDOR_SPECIFIC_MSG_IN, btag, transfer_size, 0, 0))
}

// ==========================================================================
// Write engine
// ==========================================================================

/// How many transactions a payload of `len` bytes needs: `len` divided by
/// the application buffer size, rounded up.
pub open spec fn spec_num_transactions(len: int) -> int {
    let bufsz = APPLICATION_BUFFER_SIZE as int;
    if len % bufsz == 0 {
        len / bufsz
    } else {
        len / bufsz + 1
    }
}

/// How many zero bytes bring a transfer of `n` bytes up to the next
/// multiple of four.
pub open spec fn spec_pad_len(n: int) -> int {
    if n % 4 == 0 {
        0
    } else {
        4 - n % 4
    }
}

/// `s` extended with zero bytes to the smallest multiple of four at least
/// as long as `s`.
pub open spec fn spec_pad4(s: Seq<u8>) -> Seq<u8> {
    s + Seq::new(spec_pad_len(s.len() as int) as nat, |i: int| 0u8)
}

/// The byte stream `t` split into pieces of at most `mps` bytes, in order.
pub open spec fn spec_chunks(t: Seq<u8>, mps: int) -> Seq<Seq<u8>>
    decreases t.len(),
{
    if mps < 1 || t.len() == 0 {
        seq![]
    } else if t.len() <= mps {
        seq![t]
    } else {
        seq![t.take(mps)] + spec_chunks(t.skip(mps), mps)
    }
}

/// The wire transfers that carry one transaction's byte stream `t` over an
/// endpoint with max packet size `mps`: the stream split into pieces of at
/// most `mps` bytes, each piece zero-padded to a multiple of four.
pub open spec fn spec_transaction_wire(t: Seq<u8>, mps: int) -> Seq<Seq<u8>>
    decreases t.len(),
{
    if mps < 1 || t.len() == 0 {
        seq![]
    } else if t.len() <= mps {
        seq![spec_pad4(t)]
    } else {
        seq![spec_pad4(t.take(mps))] + spec_transaction_wire(t.skip(mps), mps)
    }
}

/// The transactions `write` makes of a payload, each one header followed by
/// its slice of the payload: slices of the application buffer size in
/// order, the last one shorter, bTags advancing from `b0` one step per
/// transaction, and only the last header carrying the end-of-message flag.
pub open spec fn spec_write_transactions(data: Seq<u8>, b0: u8) -> Seq<Seq<u8>>
    decreases data.len(),
{
    let bufsz = APPLICATION_BUFFER_SIZE as int;
    if data.len() == 0 {
        seq![]
    } else if data.len() <= bufsz {
        seq![spec_dev_dep_out_header(b0, data.len() as u32, true) + data]
    } else {
        seq![spec_dev_dep_out_header(b0, APPLICATION_BUFFER_SIZE, false) + data.take(bufsz)]
            + spec_write_transactions(data.skip(bufsz), spec_advance_btag(b0))
    }
}

/// The complete, ordered list of padded wire transfers `write` produces:
/// the wire transfers of every transaction, in transaction order.
pub open spec fn spec_write_plan(data: Seq<u8>, b0: u8, mps: int) -> Seq<Seq<u8>>
    decreases data.len(),
{
    let bufsz = APPLICATION_BUFFER_SIZE as int;
    if data.len() == 0 {
        seq![]
    } else if data.len() <= bufsz {
        spec_transaction_wire(spec_dev_dep_out_header(b0, data.len() as u32, true) + data, mps)
    } else {
        spec_transaction_wire(
            spec_dev_dep_out_header(b0, APPLICATION_BUFFER_SIZE, false) + data.take(bufsz),
            mps,
        ) + spec_write_plan(data.skip(bufsz), spec_advance_btag(b0), mps)
    }
}

/// Consuming one transaction's worth of payload lowers the transaction
/// count by exactly one.
proof fn lemma_num_transactions_step(len: int)
    requires
        len > APPLICATION_BUFFER_SIZE,
    ensures
        spec_num_transactions(len - APPLICATION_BUFFER_SIZE) == spec_num_transactions(len) - 1,
{
    let b = APPLICATION_BUFFER_SIZE as int;
    vstd::arithmetic::div_mod::lemma_fundamental_div_mod(len, b);
    vstd::arithmetic::div_mod::lemma_mod_division_less_than_divisor(len, b);
    let q = len / b;
    let r = len % b;
    assert(len - b == (q - 1) * b + r);
    vstd::arithmetic::div_mod::lemma_fundamental_div_mod_converse_div(len - b, b, q - 1, r);
    vstd::arithmetic::div_mod::lemma_fundamental_div_mod_converse_mod(len - b, b, q - 1, r);
}
/// Assembles one transaction's byte stream: the 12 header bytes followed
/// by the payload slice `data[idx .. idx + chunk_len]`.
#[verifier::loop_isolation(false)]
fn build_transaction(header: &[u8; 12], data: &Vec<u8>, idx: usize, chunk_len: usize) -> (tx: Vec<
    u8,
>)
    requires
        idx + chunk_len <= data@.len(),
    ensures
        tx@ == header@ + data@.subrange(idx as int, idx + chunk_len as int),
{
    let mut tx: Vec<u8> = Vec::new();
    let mut j: usize = 0;
    while j < 12
        invariant
            j <= 12,
            tx@ == header@.take(j as int),
        decreases 12 - j,
    {
        tx.push(header[j]);
        proof {
            assert(tx@ =~= header@.take(j + 1));
        }
        j = j + 1;
    }
    proof {
        assert(header@.take(12) =~= header@);
    }
    let total = data.len();
    proof {
        assert(idx + chunk_len <= total);
    }
    let stop = idx + chunk_len;
    let mut m: usize = idx;
    while m < stop
        invariant
            idx <= m <= stop,
            tx@ == header@ + data@.subrange(idx as int, m as int),
        decreases stop - m,
    {
        tx.push(data[m]);
        proof {
            assert(tx@ =~= header@ + data@.subrange(idx as int, m + 1));
        }
        m = m + 1;
    }
    tx
}

/// Splits one transaction's byte stream into wire transfers of at most
/// `mps` bytes, each zero-padded to a multiple of four.
#[verifier::loop_isolation(false)]
fn transaction_transfers(tx: &Vec<u8>, mps: usize) -> (r: Vec<Vec<u8>>)
    requires
        1 <= mps,
    ensures
        r.deep_view() == spec_transaction_wire(tx@, mps as int),
{
    let mut r: Vec<Vec<u8>> = Vec::new();
    let mut t_idx: usize = 0;
    proof {
        assert(tx@.skip(0) =~= tx@);
        assert(r.deep_view() =~~= Seq::<Seq<u8>>::empty());
        assert(r.deep_view() + spec_transaction_wire(tx@, mps as int) =~~= spec_transaction_wire(
            tx@,
            mps as int,
        ));
    }
    while t_idx < tx.len()
        invariant
            t_idx <= tx@.len(),
            r.deep_view() + spec_transaction_wire(tx@.skip(t_idx as int), mps as int)
                == spec_transaction_wire(tx@, mps as int),
        decreases tx@.len() - t_idx,
    {
        let end = if mps < tx.len() - t_idx {
            t_idx + mps
        } else {
            tx.len()
        };
        let ghost piece: Seq<u8> = tx@.subrange(t_idx as int, end as int);
        let mut transfer: Vec<u8> = Vec::new();
        let mut p: usize = t_idx;
        while p < end
            invariant
                t_idx <= p <= end,
                transfer@ == tx@.subrange(t_idx as int, p as int),
            decreases end - p,
        {
            transfer.push(tx[p]);
            proof {
                assert(transfer@ =~= tx@.subrange(t_idx as int, p + 1));
            }
            p = p + 1;
        }
        let pad = (4 - transfer.len() % 4) % 4;
        proof {
            assert(pad == spec_pad_len(piece.len() as int));
        }
        let mut q: usize = 0;
        while q < pad
            invariant
                q <= pad,
                transfer@ == piece + Seq::new(q as nat, |i: int| 0u8),
            decreases pad - q,
        {
            transfer.push(0);
            proof {
                assert(transfer@ =~= piece + Seq::new((q + 1) as nat, |i: int| 0u8));
            }
            q = q + 1;
        }
        proof {
            assert(transfer@ =~= spec_pad4(piece));
            let s = tx@.skip(t_idx as int);
            if s.len() <= mps as int {
                assert(piece =~= s);
                assert(spec_transaction_wire(s, mps as int) == seq![spec_pad4(s)]);
                assert(tx@.skip(end as int) =~= Seq::<u8>::empty());
                assert(spec_transaction_wire(tx@.skip(end as int), mps as int) =~~= Seq::<
                    Seq<u8>,
                >::empty());
                assert(seq![spec_pad4(piece)] =~~= seq![spec_pad4(piece)] + spec_transaction_wire(
                    tx@.skip(end as int),
                    mps as int,
                ));
            } else {
                assert(piece =~= s.take(mps as int));
                assert(s.skip(mps as int) =~= tx@.skip(end as int));
                assert(spec_transaction_wire(s, mps as int) == seq![spec_pad4(piece)]
                    + spec_transaction_wire(tx@.skip(end as int), mps as int));
            }
        }
        let ghost r_before: Seq<Seq<u8>> = r.deep_view();
        r.push(transfer);
        proof {
            assert(r.deep_view() =~~= r_before.push(transfer@));
            assert(r_before.push(spec_pad4(piece)) =~~= r_before + seq![spec_pad4(piece)]);
            assert((r_before + seq![spec_pad4(piece)]) + spec_transaction_wire(
                tx@.skip(end as int),
                mps as int,
            ) =~~= r_before + (seq![spec_pad4(piece)] + spec_transaction_wire(
                tx@.skip(end as int),
                mps as int,
            )));
        }
        t_idx = end;
    }
    proof {
        assert(tx@.skip(tx@.len() as int) =~= Seq::<u8>::empty());
        assert(spec_transaction_wire(Seq::<u8>::empty(), mps as int) =~~= Seq::<Seq<u8>>::empty());
        assert(r.deep_view() + Seq::<Seq<u8>>::empty() =~~= r.deep_view());
    }
    r
}

/// Segments `data` into USBTMC transactions and their padded wire
/// transfers, as they must be sent over the bulk-out endpoint.
///
/// The result is the ordered list of transfer payloads: for each
/// transaction of at most `APPLICATION_BUFFER_SIZE` payload bytes a fresh
/// bTag is taken, a DEV_DEP_MSG_OUT header (end-of-message set only on the
/// last transaction) is prepended, and the combined bytes are split into
/// transfers of at most `max_packet_size` bytes, each zero-padded to a
/// multiple of four.  An endpoint that is not bulk-out is rejected before
/// any bTag is consumed, so no transfer may be issued for it.
#[verifier::loop_isolation(false)]
pub fn write(data: &Vec<u8>, btag: &mut BTag, bulk_out_endpoint: &Endpoint) -> (r: Result<
    Vec<Vec<u8>>,
    Error,
>)
    requires
        bulk_out_endpoint.max_packet_size >= 1,
    ensures
        r is Ok <==> is_valid_bulk_out(*bulk_out_endpoint),
        r matches Err(e) ==> e is IncorrectEndpoint && final(btag)@ == old(btag)@,
        r matches Ok(transfers) ==> transfers.deep_view() == spec_write_plan(
            data@,
            old(btag)@,
            bulk_out_endpoint.max_packet_size as int,
        ) && final(btag)@ == spec_advance_btag_n(
            old(btag)@,
            spec_num_transactions(data@.len() as int) as nat,
        ),
{
    if !(bulk_out_endpoint.direction == Direction::Out && bulk_out_endpoint.transfer_type
        == TransferType::Bulk) {
        return Err(Error::IncorrectEndpoint);
    }
    let mps: usize = bulk_out_endpoint.max_packet_size as usize;
    let ghost b0: u8 = btag@;
    let ghost plan: Seq<Seq<u8>> = spec_write_plan(data@, b0, mps as int);
    let bufsz: usize = APPLICATION_BUFFER_SIZE as usize;

    let mut out: Vec<Vec<u8>> = Vec::new();
    let mut idx: usize = 0;
    let ghost mut tcount: nat = 0;
    proof {
        assert(data@.skip(0) =~= data@);
        assert(out.deep_view() =~~= Seq::<Seq<u8>>::empty());
        assert(out.deep_view() + spec_write_plan(data@, b0, mps as int) =~~= spec_write_plan(
            data@,
            b0,
            mps as int,
        ));
    }

    while idx < data.len()
        invariant
            idx <= data@.len(),
            btag@ == spec_advance_btag_n(b0, tcount),
            out.deep_view() + spec_write_plan(data@.skip(idx as int), btag@, mps as int) == plan,
            spec_num_transactions((data@.len() - idx) as int) == spec_num_transactions(
                data@.len() as int,
            ) - tcount,
        decreases data@.len() - idx,
    {
        let remaining = data.len() - idx;
        let (chunk_len, eom): (usize, bool) = if remaining > bufsz {
            (bufsz, false)
        } else {
            (remaining, true)
        };
        let ghost rem: Seq<u8> = data@.skip(idx as int);
        let ghost chunk: Seq<u8> = data@.subrange(idx as int, (idx + chunk_len) as int);
        proof {
            assert(rem.take(chunk_len as int) =~= chunk);
            assert(rem.skip(chunk_len as int) =~= data@.skip((idx + chunk_len) as int));
            if remaining <= bufsz {
                assert(chunk =~= rem);
            }
        }
        let b = btag.get();
        let header = match device_dependent_msg_out_header(b, chunk_len as u32, eom) {
            Ok(h) => h,
            Err(e) => {
                return Err(e);
            },
        };
        let tx = build_transaction(&header, data, idx, chunk_len);
        proof {
            assert(tx@ == spec_dev_dep_out_header(b, chunk_len as u32, eom) + chunk);
            // One unfolding of the plan: this transaction's wire transfers,
            // then the plan of the rest of the payload.
            if remaining > bufsz {
                assert(spec_write_plan(rem, b, mps as int) == spec_transaction_wire(tx@, mps as int)
                    + spec_write_plan(
                    data@.skip((idx + chunk_len) as int),
                    spec_advance_btag(b),
                    mps as int,
                ));
            } else {
                assert(data@.skip((idx + chunk_len) as int) =~= Seq::<u8>::empty());
                assert(spec_write_plan(data@.skip((idx + chunk_len) as int), spec_advance_btag(b), mps as int)
                    =~~= Seq::<Seq<u8>>::empty());
                assert(spec_write_plan(rem, b, mps as int) =~~= spec_transaction_wire(
                    tx@,
                    mps as int,
                ) + spec_write_plan(
                    data@.skip((idx + chunk_len) as int),
                    spec_advance_btag(b),
                    mps as int,
                ));
            }
        }
        let ghost rest: Seq<Seq<u8>> = spec_write_plan(
            data@.skip((idx + chunk_len) as int),
            spec_advance_btag(b),
            mps as int,
        );
        let mut transfers = transaction_transfers(&tx, mps);
        let ghost out_before: Seq<Seq<u8>> = out.deep_view();
        let ghost transfers_dv: Seq<Seq<u8>> = transfers.deep_view();
        out.append(&mut transfers);
        proof {
            assert(out.deep_view() =~~= out_before + transfers_dv);
            assert(out_before + (transfers_dv + rest) =~~= (out_before + transfers_dv) + rest);
            if remaining > bufsz {
                lemma_num_transactions_step((data@.len() - idx) as int);
            }
            tcount = tcount + 1;
        }
        idx = idx + chunk_len;
    }
    proof {
        assert(data@.skip(data@.len() as int) =~= Seq::<u8>::empty());
        assert(spec_write_plan(Seq::<u8>::empty(), btag@, mps as int) =~~= Seq::<Seq<u8>>::empty());
        assert(out.deep_view() + Seq::<Seq<u8>>::empty() =~~= out.deep_view());
        assert(spec_num_transactions(0) == 0);
    }
    Ok(out)
}

// ==========================================================================
// Laws of the write engine
// ==========================================================================

/// Padding law: a padded transfer keeps its pre-padding bytes, everything
/// added is zero, and the padded length is the smallest multiple of four
/// at least as large as the pre-padding length, so between zero and three
/// zeros are added.
pub proof fn lemma_pad4_smallest(s: Seq<u8>)
    ensures
        spec_pad4(s).len() % 4 == 0,
        s.len() <= spec_pad4(s).len() < s.len() + 4,
        spec_pad4(s).take(s.len() as int) == s,
        forall|i: int| s.len() <= i < spec_pad4(s).len() ==> spec_pad4(s)[i] == 0u8,
{
    assert(spec_pad4(s).take(s.len() as int) =~= s);
    let n = s.len() as int;
    vstd::arithmetic::div_mod::lemma_fundamental_div_mod(n, 4);
    vstd::arithmetic::div_mod::lemma_mod_division_less_than_divisor(n, 4);
    if n % 4 != 0 {
        assert(n + (4 - n % 4) == 4 * (n / 4 + 1));
        assert((4 * (n / 4 + 1) + 0) % 4 == 0int % 4) by {
            vstd::arithmetic::div_mod::lemma_mod_multiples_vanish(n / 4 + 1, 0, 4);
        };
    }
}

/// A payload needs at least one transaction as soon as it is not empty.
proof fn lemma_num_transactions_pos(len: int)
    requires
        len > 0,
    ensures
        spec_num_transactions(len) >= 1,
{
    let b = APPLICATION_BUFFER_SIZE as int;
    vstd::arithmetic::div_mod::lemma_fundamental_div_mod(len, b);
    vstd::arithmetic::div_mod::lemma_div_pos_is_pos(len, b);
}

/// Chunking law: the wire transfers of a transaction are exactly its
/// chunks of at most `mps` bytes, each zero-padded to a multiple of four;
/// chunking loses no byte and no chunk is empty or longer than `mps`.
pub proof fn lemma_transaction_wire_is_padded_chunks(t: Seq<u8>, mps: int)
    requires
        1 <= mps,
    ensures
        spec_transaction_wire(t, mps).len() == spec_chunks(t, mps).len(),
        forall|i: int|
            0 <= i < spec_chunks(t, mps).len() ==> spec_transaction_wire(t, mps)[i] == spec_pad4(
                #[trigger] spec_chunks(t, mps)[i],
            ),
        spec_chunks(t, mps).flatten() == t,
        forall|i: int|
            0 <= i < spec_chunks(t, mps).len() ==> 1 <= (#[trigger] spec_chunks(t, mps)[i]).len()
                <= mps,
    decreases t.len(),
{
    if t.len() == 0 {
        assert(spec_chunks(t, mps).flatten() =~= t);
    } else if t.len() <= mps {
        seq![t].lemma_flatten_singleton();
    } else {
        lemma_transaction_wire_is_padded_chunks(t.skip(mps), mps);
        lemma_flatten_concat(seq![t.take(mps)], spec_chunks(t.skip(mps), mps));
        seq![t.take(mps)].lemma_flatten_singleton();
        assert(t.take(mps) + t.skip(mps) =~= t);
        assert(spec_chunks(t, mps).flatten() == t);
    }
}

/// Transaction law: a payload of `len` bytes is written in exactly
/// `spec_num_transactions(len)` transactions; every transaction starts
/// with a 12-byte DEV_DEP_MSG_OUT header whose bTag advances one step per
/// transaction from `b0` and whose byte 2 is the complement of the bTag,
/// and the end-of-message bit is set in the last transaction's header and
/// in no other.
pub proof fn lemma_write_transactions_structure(data: Seq<u8>, b0: u8)
    ensures
        spec_write_transactions(data, b0).len() == spec_num_transactions(data.len() as int),
        forall|i: int|
            0 <= i < spec_write_transactions(data, b0).len() ==> {
                &&& (#[trigger] spec_write_transactions(data, b0)[i]).len() >= 12
                &&& spec_write_transactions(data, b0)[i][0] == DEVICE_DEPENDENT_MSG_OUT
                &&& spec_write_transactions(data, b0)[i][1] == spec_advance_btag_n(b0, i as nat)
                &&& spec_write_transactions(data, b0)[i][2] == !spec_write_transactions(
                    data,
                    b0,
                )[i][1]
                &&& spec_write_transactions(data, b0)[i][8] == if i == spec_write_transactions(
                    data,
                    b0,
                ).len() - 1 {
                    1u8
                } else {
                    0u8
                }
            },
    decreases data.len(),
{
    let b = APPLICATION_BUFFER_SIZE as int;
    let len = data.len() as int;
    if data.len() == 0 {
    } else if data.len() <= b {
        if len < b {
            vstd::arithmetic::div_mod::lemma_small_mod(len as nat, b as nat);
            vstd::arithmetic::div_mod::lemma_basic_div(len, b);
        }
        assert(spec_num_transactions(len) == 1);
        let tx0 = spec_dev_dep_out_header(b0, data.len() as u32, true) + data;
        assert(tx0[1] == b0);
        assert(spec_advance_btag_n(b0, 0) == b0);
    } else {
        let b1 = spec_advance_btag(b0);
        let rest = data.skip(b);
        lemma_write_transactions_structure(rest, b1);
        lemma_num_transactions_step(len);
        lemma_num_transactions_pos(len - b);
        let txs = spec_write_transactions(data, b0);
        let rec = spec_write_transactions(rest, b1);
        assert(txs.len() == 1 + rec.len());
        assert forall|i: int| 0 <= i < txs.len() implies {
            &&& (#[trigger] txs[i]).len() >= 12
            &&& txs[i][0] == DEVICE_DEPENDENT_MSG_OUT
            &&& txs[i][1] == spec_advance_btag_n(b0, i as nat)
            &&& txs[i][2] == !txs[i][1]
            &&& txs[i][8] == if i == txs.len() - 1 {
                1u8
            } else {
                0u8
            }
        } by {
            if i == 0 {
                assert(spec_advance_btag_n(b0, 0) == b0);
                assert(txs[0][1] == b0);
            } else {
                assert(txs[i] == rec[i - 1]);
                assert(rec[i - 1][1] == spec_advance_btag_n(b1, (i - 1) as nat));
                lemma_advance_btag_n_front(b0, (i - 1) as nat);
            }
        };
    }
}

/// The wire transfers of a list of transactions, concatenated in
/// transaction order.
pub open spec fn spec_transactions_wire(txs: Seq<Seq<u8>>, mps: int) -> Seq<Seq<u8>>
    decreases txs.len(),
{
    if txs.len() == 0 {
        seq![]
    } else {
        spec_transaction_wire(txs.first(), mps) + spec_transactions_wire(txs.drop_first(), mps)
    }
}

/// Plan law: the write plan is exactly the concatenation, in transaction
/// order, of each transaction's wire transfers.
pub proof fn lemma_write_plan_is_transactions(data: Seq<u8>, b0: u8, mps: int)
    requires
        1 <= mps,
    ensures
        spec_write_plan(data, b0, mps) == spec_transactions_wire(
            spec_write_transactions(data, b0),
            mps,
        ),
    decreases data.len(),
{
    let b = APPLICATION_BUFFER_SIZE as int;
    if data.len() == 0 {
    } else if data.len() <= b {
        let tx0 = spec_dev_dep_out_header(b0, data.len() as u32, true) + data;
        let txs = spec_write_transactions(data, b0);
        assert(txs.first() == tx0);
        assert(txs.drop_first() =~= Seq::<Seq<u8>>::empty());
        assert(spec_transactions_wire(txs.drop_first(), mps) =~~= Seq::<Seq<u8>>::empty());
        assert(spec_transaction_wire(tx0, mps) + Seq::<Seq<u8>>::empty() =~~= spec_transaction_wire(
            tx0,
            mps,
        ));
    } else {
        let b1 = spec_advance_btag(b0);
        let tx0 = spec_dev_dep_out_header(b0, APPLICATION_BUFFER_SIZE, false) + data.take(b);
        let txs = spec_write_transactions(data, b0);
        let rec = spec_write_transactions(data.skip(b), b1);
        lemma_write_plan_is_transactions(data.skip(b), b1, mps);
        assert(txs.first() == tx0);
        assert(txs.drop_first() =~= rec);
    }
}

// ==========================================================================
// Read engine
// ==========================================================================

/// The payload of one received fragment: the fragment with its 12-byte
/// header removed.
pub open spec fn spec_strip_header(f: Seq<u8>) -> Seq<u8> {
    f.skip(USBTMC_HEADER_SIZE as int)
}

/// The response assembled from the received fragments: the concatenation
/// of every fragment with its 12-byte header removed, in arrival order.
pub open spec fn spec_assembled(frags: Seq<Seq<u8>>) -> Seq<u8>
    decreases frags.len(),
{
    if frags.len() == 0 {
        Seq::empty()
    } else {
        spec_assembled(frags.drop_last()) + spec_strip_header(frags.last())
    }
}

/// Whether a received fragment's header marks the end of the message:
/// bit 0 of its attribute byte (byte 8) is set.
pub open spec fn spec_is_eom_fragment(f: Seq<u8>) -> bool {
    f.len() > 8 && f[8] & 0x01 == 0x01
}

/// Appending a fragment appends exactly its stripped payload.
proof fn lemma_assembled_push(frags: Seq<Seq<u8>>, f: Seq<u8>)
    ensures
        spec_assembled(frags.push(f)) == spec_assembled(frags) + spec_strip_header(f),
{
    assert(frags.push(f).drop_last() =~= frags);
    assert(frags.push(f).last() == f);
}

/// The state of one in-progress bulk read: the request header that is
/// sent before every fragment, the response assembled so far, and whether
/// the device has marked the end of the message.
///
/// The embedding application drives the loop: while `is_done` is false it
/// sends `request_header` over the bulk-out endpoint, reads one fragment
/// from the bulk-in endpoint, and hands it to `push_fragment`; when the
/// device sets the end-of-message bit, `into_output` yields the response.
pub struct ReadProgress {
    request_header: [u8; 12],
    output: Vec<u8>,
    done: bool,
    fragments: Ghost<Seq<Seq<u8>>>,
}

impl ReadProgress {
    /// Well-formedness: the assembled output is exactly the concatenation
    /// of the received fragments with their headers stripped, the done
    /// flag is set exactly when the last fragment carried the
    /// end-of-message bit, and every fragment is at least a header long.
    pub closed spec fn wf(self) -> bool {
        &&& self.output@ == spec_assembled(self.fragments@)
        &&& self.done == (self.fragments@.len() > 0 && spec_is_eom_fragment(self.fragments@.last()))
        &&& forall|i: int|
            0 <= i < self.fragments@.len() ==> (#[trigger] self.fragments@[i]).len()
                >= USBTMC_HEADER_SIZE
    }

    /// The request header sent before every fragment.
    pub closed spec fn spec_request_header(self) -> Seq<u8> {
        self.request_header@
    }

    /// The fragments received so far, in arrival order.
    pub closed spec fn spec_fragments(self) -> Seq<Seq<u8>> {
        self.fragments@
    }

    /// Whether the device has marked the end of the message.
    pub closed spec fn spec_done(self) -> bool {
        self.done
    }

    /// The response assembled so far.
    pub open spec fn spec_output(self) -> Seq<u8> {
        spec_assembled(self.spec_fragments())
    }

    /// The request header to send before each fragment.
    pub fn request_header(&self) -> (r: [u8; 12])
        ensures
            r@ == self.spec_request_header(),
    {
        self.request_header
    }

    /// Whether the read loop is finished.
    pub fn is_done(&self) -> (r: bool)
        ensures
            r == self.spec_done(),
    {
        self.done
    }

    /// Feeds one received fragment into the read: `buffer[..bytes_read]`
    /// as the host read it from the bulk-in endpoint.  The 12-byte header
    /// is stripped and the remainder appended, unfiltered, to the
    /// assembled output; the read is finished exactly when bit 0 of the
    /// fragment's attribute byte (byte 8) is set.
    pub fn push_fragment(&mut self, buffer: &Vec<u8>, bytes_read: usize)
        requires
            old(self).wf(),
            !old(self).spec_done(),
            USBTMC_HEADER_SIZE <= bytes_read <= buffer@.len(),
        ensures
            final(self).wf(),
            final(self).spec_fragments() == old(self).spec_fragments().push(
                buffer@.take(bytes_read as int),
            ),
            final(self).spec_output() == old(self).spec_output() + buffer@.subrange(
                USBTMC_HEADER_SIZE as int,
                bytes_read as int,
            ),
            final(self).spec_done() == (buffer@[8] & 0x01 == 0x01),
            final(self).spec_request_header() == old(self).spec_request_header(),
    {
        let ghost frag: Seq<u8> = buffer@.take(bytes_read as int);
        let ghost old_frags: Seq<Seq<u8>> = self.fragments@;
        let mut m: usize = USBTMC_HEADER_SIZE;
        while m < bytes_read
            invariant
                USBTMC_HEADER_SIZE <= m <= bytes_read <= buffer@.len(),
                self.output@ == old(self).output@ + buffer@.subrange(
                    USBTMC_HEADER_SIZE as int,
                    m as int,
                ),
                self.request_header == old(self).request_header,
                self.done == old(self).done,
                self.fragments == old(self).fragments,
            decreases bytes_read - m,
        {
            self.output.push(buffer[m]);
            proof {
                assert(self.output@ =~= old(self).output@ + buffer@.subrange(
                    USBTMC_HEADER_SIZE as int,
                    m + 1,
                ));
            }
            m = m + 1;
        }
        self.done = buffer[8] & 0x01 == 0x01;
        self.fragments = Ghost(old_frags.push(frag));
        proof {
            lemma_assembled_push(old_frags, frag);
            assert(spec_strip_header(frag) =~= buffer@.subrange(
                USBTMC_HEADER_SIZE as int,
                bytes_read as int,
            ));
            assert(frag[8] == buffer@[8]);
        }
    }

    /// Yields the assembled response: every received fragment with its
    /// header stripped, concatenated in arrival order, with no bytes
    /// filtered out.
    pub fn into_output(self) -> (r: Vec<u8>)
        requires
            self.wf(),
        ensures
            r@ == self.spec_output(),
    {
        self.output
    }
}

/// Begins a bulk read: validates both endpoints, takes one bTag, and
/// builds the REQUEST_DEV_DEP_MSG_IN header sized to the bulk-in
/// endpoint's max packet size, asking for the default terminator
/// character exactly when the device supports one.
///
/// An endpoint whose direction or transfer type does not fit its role is
/// rejected with `IncorrectEndpoint` before any bTag is consumed, so no
/// transfer may be issued for it.
pub fn read(
    btag: &mut BTag,
    bulk_in_endpoint: &Endpoint,
    bulk_out_endpoint: &Endpoint,
    device_capabilities: &Capabilities,
) -> (r: Result<ReadProgress, Error>)
    ensures
        r is Ok <==> is_valid_bulk_out(*bulk_out_endpoint) && is_valid_bulk_in(*bulk_in_endpoint),
        r matches Err(e) ==> e is IncorrectEndpoint && final(btag)@ == old(btag)@,
        r matches Ok(p) ==> {
            &&& p.wf()
            &&& p.spec_fragments() == Seq::<Seq<u8>>::empty()
            &&& p.spec_output() == Seq::<u8>::empty()
            &&& !p.spec_done()
            &&& p.spec_request_header() == spec_request_dev_dep_in_header(
                old(btag)@,
                bulk_in_endpoint.max_packet_size as u32,
                if device_capabilities.supports_bulk_in_term_char {
                    Some(DEFAULT_TERM_CHAR)
                } else {
                    None
                },
            )
            &&& final(btag)@ == spec_advance_btag(old(btag)@)
        },
{
    if !(bulk_out_endpoint.direction == Direction::Out && bulk_out_endpoint.transfer_type
        == TransferType::Bulk) {
        return Err(Error::IncorrectEndpoint);
    }
    if !(bulk_in_endpoint.direction == Direction::In && bulk_in_endpoint.transfer_type
        == TransferType::Bulk) {
        return Err(Error::IncorrectEndpoint);
    }
    let term_char: Option<u8> = if device_capabilities.supports_bulk_in_term_char {
        Some(DEFAULT_TERM_CHAR)
    } else {
        None
    };
    let b = btag.get();
    let request_header = match request_device_dependent_msg_in_header(
        b,
        bulk_in_endpoint.max_packet_size as u32,
        term_char,
    ) {
        Ok(h) => h,
        Err(e) => {
            return Err(e);
        },
    };
    let progress = ReadProgress {
        request_header,
        output: Vec::new(),
        done: false,
        fragments: Ghost(Seq::empty()),
    };
    proof {
        assert(progress.output@ =~= Seq::<u8>::empty());
    }
    Ok(progress)
}

} // verus!
