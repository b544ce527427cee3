//! ONC RPC CALL messages (RFC 5531): transaction ids, credentials, and a
//! builder that assembles header, credentials and arguments and frames the
//! result for TCP.

use bytes::BytesMut;
use vstd::arithmetic::div_mod::lemma_mod_multiples_vanish;
use vstd::prelude::*;
use vstd::slice::slice_to_vec;
use vstd::string::StringSliceAdditionalSpecFns;

use crate::buf::{buf_as_slice, buf_contents};
use crate::xdr::{
    be32, lemma_opaque_len, lemma_pad, len_field, low32, opaque, pad, patch32, XdrEncoder,
};

pub mod auth_flavor;
pub mod msg_type;
pub mod program;

verus! {

/// RPC protocol version: always 2, whatever the version of the program called.
pub const RPC_VERSION: u32 = 2;

/// The id that a generator issues `k` calls after it issued `first`. The
/// count wraps around at 2^32.
pub open spec fn xid_after(first: u32, k: nat) -> u32 {
    ((first + k) % 0x1_0000_0000) as u32
}

/// A counter that hands out transaction ids. Its view is the id it issues next.
pub struct XidGenerator {
    next: u32,
}

impl View for XidGenerator {
    type V = u32;

    closed spec fn view(&self) -> u32 {
        self.next
    }
}

impl XidGenerator {
    /// A fresh generator: its first id is 1.
    pub fn new() -> (generator: Self)
        ensures
            generator@ == 1,
    {
        XidGenerator { next: 1 }
    }

    /// A generator whose first id is `first`.
    pub fn starting_at(first: u32) -> (generator: Self)
        ensures
            generator@ == first,
    {
        XidGenerator { next: first }
    }
}

/// Issues the next transaction id and advances the generator by one.
pub fn next_xid(generator: &mut XidGenerator) -> (xid: u32)
    ensures
        xid == old(generator)@,
        final(generator)@ == xid_after(old(generator)@, 1),
{
    let xid: u32 = generator.next;
    generator.next = xid.wrapping_add(1);
    xid
}

/// The ids of successive calls are `xid_after(first, 0)`, `xid_after(first, 1)`
/// and so on: advancing once and then `k` times is advancing `k + 1` times.
pub proof fn lemma_xid_sequence(first: u32, k: nat)
    ensures
        xid_after(first, 0) == first,
        xid_after(xid_after(first, 1), k) == xid_after(first, k + 1),
{
}

/// Ids issued one after another are pairwise distinct as long as no more
/// than 2^32 are issued.
pub proof fn lemma_xids_distinct(first: u32, i: nat, j: nat)
    requires
        i < j < 0x1_0000_0000,
    ensures
        xid_after(first, i) != xid_after(first, j),
{
}

/// Until the count wraps around, a later id is greater than an earlier one.
pub proof fn lemma_xids_increasing(first: u32, i: nat, j: nat)
    requires
        i < j,
        first + j <= u32::MAX,
    ensures
        xid_after(first, i) < xid_after(first, j),
        xid_after(first, j) == first + j,
{
}

/// The `AUTH_NONE` credential: flavor 0 and a body of length 0.
pub open spec fn none_credential() -> Seq<u8> {
    be32(auth_flavor::AUTH_NONE) + be32(0)
}

/// Each value as four big-endian bytes, in order.
pub open spec fn be32_list(values: Seq<u32>) -> Seq<u8>
    decreases values.len(),
{
    if values.len() == 0 {
        Seq::empty()
    } else {
        be32_list(values.drop_last()) + be32(values.last())
    }
}

/// Body of an `AUTH_SYS` credential: stamp 0, machine name, uid, gid, and the
/// counted list of supplementary group ids.
pub open spec fn sys_credential_body(
    machine_name: Seq<u8>,
    uid: u32,
    gid: u32,
    gids: Seq<u32>,
) -> Seq<u8> {
    be32(0) + opaque(machine_name) + be32(uid) + be32(gid) + be32(low32(gids.len()))
        + be32_list(gids)
}

/// The `AUTH_SYS` credential: flavor 1, the length of the body, the body.
pub open spec fn sys_credential(
    machine_name: Seq<u8>,
    uid: u32,
    gid: u32,
    gids: Seq<u32>,
) -> Seq<u8> {
    let body = sys_credential_body(machine_name, uid, gid, gids);
    be32(auth_flavor::AUTH_SYS) + be32(low32(body.len())) + body
}

/// Length of an `AUTH_SYS` credential for a machine name of `name_len` bytes
/// and `group_count` supplementary groups.
pub open spec fn sys_credential_len(name_len: nat, group_count: nat) -> nat {
    28 + name_len + pad(name_len) + 4 * group_count
}

/// A list of `n` values takes `4 * n` bytes.
pub proof fn lemma_be32_list_len(values: Seq<u32>)
    ensures
        be32_list(values).len() == 4 * values.len(),
    decreases values.len(),
{
    if values.len() > 0 {
        lemma_be32_list_len(values.drop_last());
    }
}

/// The length of an `AUTH_SYS` credential is a multiple of four.
pub proof fn lemma_sys_credential_aligned(name_len: nat, group_count: nat)
    ensures
        sys_credential_len(name_len, group_count) % 4 == 0,
{
    lemma_pad(name_len);
}

/// An `AUTH_SYS` credential is as long as `sys_credential_len` says: eight
/// bytes more than its body.
pub proof fn lemma_sys_credential_len(machine_name: Seq<u8>, uid: u32, gid: u32, gids: Seq<u32>)
    ensures
        sys_credential_body(machine_name, uid, gid, gids).len() + 8 == sys_credential_len(
            machine_name.len(),
            gids.len(),
        ),
        sys_credential(machine_name, uid, gid, gids).len() == sys_credential_len(
            machine_name.len(),
            gids.len(),
        ),
{
    lemma_be32_list_len(gids);
    lemma_opaque_len(machine_name);
}

/// Builds `AUTH_NONE` credentials.
pub fn auth_none() -> (blob: Vec<u8>)
    ensures
        blob@ == none_credential(),
{
    let mut enc = XdrEncoder::new();
    enc.put_u32(auth_flavor::AUTH_NONE);
    enc.put_u32(0);
    let buf = enc.into_bytes();
    slice_to_vec(buf_as_slice(&buf))
}

/// Builds `AUTH_SYS` credentials. The body is encoded first, since the
/// credential carries the length of its body in front of it.
pub fn auth_sys(machine_name: &str, uid: u32, gid: u32, gids: &[u32]) -> (blob: Vec<u8>)
    requires
        sys_credential_len(machine_name.spec_bytes().len(), gids@.len()) <= isize::MAX,
    ensures
        blob@ == sys_credential(machine_name.spec_bytes(), uid, gid, gids@),
        blob@.len() == sys_credential_len(machine_name.spec_bytes().len(), gids@.len()),
{
    let ghost name = machine_name.spec_bytes();
    let ghost fixed = be32(0) + opaque(name) + be32(uid) + be32(gid) + be32(low32(gids@.len()));
    let mut body = XdrEncoder::new();
    body.put_u32(0);
    body.put_string(machine_name);
    body.put_u32(uid);
    body.put_u32(gid);
    body.put_u32(len_field(gids.len()));
    let mut i: usize = 0;
    while i < gids.len()
        invariant
            i <= gids@.len(),
            fixed.len() == 20 + name.len() + pad(name.len()),
            sys_credential_len(name.len(), gids@.len()) <= isize::MAX,
            body@ == fixed + be32_list(gids@.take(i as int)),
        decreases gids@.len() - i,
    {
        proof {
            lemma_be32_list_len(gids@.take(i as int));
            assert(gids@.take(i + 1).drop_last() == gids@.take(i as int));
        }
        body.put_u32(gids[i]);
        i += 1;
    }
    proof {
        assert(gids@.take(i as int) == gids@);
        lemma_sys_credential_len(name, uid, gid, gids@);
    }
    let mut enc = XdrEncoder::new();
    enc.put_u32(auth_flavor::AUTH_SYS);
    enc.put_u32(len_field(body.len()));
    enc.put_raw(body.as_bytes());
    let buf = enc.into_bytes();
    slice_to_vec(buf_as_slice(&buf))
}

/// The six fields that open a call: transaction id, message type `CALL`,
/// RPC version 2, program, program version, procedure.
pub open spec fn call_header(xid: u32, program: u32, version: u32, procedure: u32) -> Seq<u8> {
    be32(xid) + be32(msg_type::CALL) + be32(RPC_VERSION) + be32(program) + be32(version)
        + be32(procedure)
}

/// The record mark of a message whose body takes `body_len` bytes: the
/// last-fragment bit, and the length in the 31 bits below it. A length that
/// needs more than 31 bits is cut down to its low 31 bits, so the
/// last-fragment bit is set whatever the length.
pub open spec fn record_mark(body_len: nat) -> u32 {
    (0x8000_0000 + body_len % 0x8000_0000) as u32
}

/// What a call under construction amounts to.
pub struct CallModel {
    /// The bytes written so far, the reserved record mark included.
    pub bytes: Seq<u8>,
    /// Where the record mark was reserved, if the message is framed.
    pub mark: Option<nat>,
    /// Where the body starts: right after the record mark, or at 0.
    pub body_start: nat,
}

impl CallModel {
    /// A call that holds its header, behind a reserved record mark if the
    /// message is framed.
    pub open spec fn new(
        xid: u32,
        program: u32,
        version: u32,
        procedure: u32,
        include_record_mark: bool,
    ) -> CallModel {
        if include_record_mark {
            CallModel {
                bytes: be32(0) + call_header(xid, program, version, procedure),
                mark: Some(0nat),
                body_start: 4,
            }
        } else {
            CallModel {
                bytes: call_header(xid, program, version, procedure),
                mark: None,
                body_start: 0,
            }
        }
    }

    /// The call with `more` appended as it is.
    pub open spec fn append(self, more: Seq<u8>) -> CallModel {
        CallModel { bytes: self.bytes + more, ..self }
    }

    /// The call with credential and verifier appended as they are.
    pub open spec fn with_auth(self, cred: Seq<u8>, verf: Seq<u8>) -> CallModel {
        self.append(cred).append(verf)
    }

    /// The call with its arguments appended as they are.
    pub open spec fn with_args(self, args: Seq<u8>) -> CallModel {
        self.append(args)
    }

    /// The body starts right after the record mark, or at 0 without one,
    /// and lies within the bytes written.
    pub open spec fn wf(self) -> bool {
        match self.mark {
            Some(offset) => self.body_start == offset + 4 && self.body_start <= self.bytes.len(),
            None => self.body_start == 0,
        }
    }

    /// The finished message: the bytes written, with the record mark of the
    /// body filled in where one was reserved.
    pub open spec fn finalized(self) -> Seq<u8> {
        match self.mark {
            Some(offset) => patch32(
                self.bytes,
                offset as int,
                record_mark((self.bytes.len() - self.body_start) as nat),
            ),
            None => self.bytes,
        }
    }
}

/// The message that `simple_rpc_call` builds: record mark, header, and
/// `AUTH_NONE` as credential and as verifier. Its body takes 40 bytes.
pub open spec fn simple_call(xid: u32, program: u32, version: u32, procedure: u32) -> Seq<u8> {
    be32(0x8000_0028) + call_header(xid, program, version, procedure) + none_credential()
        + none_credential()
}

/// The record mark has the last-fragment bit set and holds the low 31 bits
/// of the body length: the length itself where it fits in 31 bits.
pub proof fn lemma_record_mark(body_len: nat)
    ensures
        record_mark(body_len) >= 0x8000_0000,
        record_mark(body_len) - 0x8000_0000 == body_len % 0x8000_0000,
        body_len < 0x8000_0000 ==> record_mark(body_len) == 0x8000_0000 + body_len,
{
}

/// The 31 bits of the body length are those of its low 32 bits.
proof fn lemma_record_mark_of_low32(body_len: nat)
    ensures
        record_mark(body_len) == 0x8000_0000 + low32(body_len) % 0x8000_0000,
{
    let q: int = body_len as int / 0x1_0000_0000;
    let r: int = body_len as int % 0x1_0000_0000;
    assert(body_len == 0x8000_0000 * (2 * q) + r);
    lemma_mod_multiples_vanish(2 * q, r, 0x8000_0000);
}

/// A well-formed call stays well-formed as long as its bytes do not get
/// fewer: whatever is appended to it, and whatever is written through its
/// encoder.
pub proof fn lemma_wf_kept(call: CallModel, bytes: Seq<u8>)
    requires
        call.wf(),
        call.bytes.len() <= bytes.len(),
    ensures
        (CallModel { bytes, ..call }).wf(),
        call.append(bytes).wf(),
{
}

/// Without record marking no record mark is written: the finished message
/// is header, credential, verifier and arguments, and exactly as long as
/// the four together.
pub proof fn lemma_unframed_message(
    xid: u32,
    program: u32,
    version: u32,
    procedure: u32,
    cred: Seq<u8>,
    verf: Seq<u8>,
    args: Seq<u8>,
)
    ensures
        CallModel::new(xid, program, version, procedure, false).with_auth(cred, verf).with_args(
            args,
        ).finalized() == call_header(xid, program, version, procedure) + cred + verf + args,
        CallModel::new(xid, program, version, procedure, false).with_auth(cred, verf).with_args(
            args,
        ).finalized().len() == 24 + cred.len() + verf.len() + args.len(),
{
}

/// With record marking the finished message is the record mark of the body,
/// then the body: header, credential, verifier and arguments.
pub proof fn lemma_framed_message(
    xid: u32,
    program: u32,
    version: u32,
    procedure: u32,
    cred: Seq<u8>,
    verf: Seq<u8>,
    args: Seq<u8>,
)
    ensures
        CallModel::new(xid, program, version, procedure, true).with_auth(cred, verf).with_args(
            args,
        ).finalized() == be32(record_mark(24 + cred.len() + verf.len() + args.len()))
            + call_header(xid, program, version, procedure) + cred + verf + args,
{
}

/// A call without arguments and with `AUTH_NONE` credentials takes 44 bytes:
/// the record mark `0x80000028`, a body of 40 bytes, and in it the program
/// number at offset 16 of the message.
pub proof fn lemma_simple_call(xid: u32, program: u32, version: u32, procedure: u32)
    ensures
        simple_call(xid, program, version, procedure) == CallModel::new(
            xid,
            program,
            version,
            procedure,
            true,
        ).with_auth(none_credential(), none_credential()).finalized(),
        simple_call(xid, program, version, procedure).len() == 44,
        simple_call(xid, program, version, procedure).subrange(0, 4) == seq![
            0x80u8,
            0x00u8,
            0x00u8,
            0x28u8,
        ],
        simple_call(xid, program, version, procedure).subrange(16, 20) == be32(program),
{
}

/// Builder of one RPC CALL message. It checks nothing of what it is given:
/// it is meant to emit malformed messages as readily as conforming ones.
pub struct RpcCall {
    enc: XdrEncoder,
    record_mark_offset: Option<usize>,
    body_start: usize,
}

impl View for RpcCall {
    type V = CallModel;

    closed spec fn view(&self) -> CallModel {
        CallModel {
            bytes: self.enc@,
            mark: match self.record_mark_offset {
                Some(offset) => Some(offset as nat),
                None => None,
            },
            body_start: self.body_start as nat,
        }
    }
}

impl RpcCall {
    /// Starts a call with its header. With `include_record_mark`, four
    /// bytes in front of the header are reserved for the TCP record mark.
    pub fn new(
        xid: u32,
        program: u32,
        version: u32,
        procedure: u32,
        include_record_mark: bool,
    ) -> (call: Self)
        ensures
            call@ == CallModel::new(xid, program, version, procedure, include_record_mark),
            call@.wf(),
    {
        let mut enc = XdrEncoder::with_capacity(512);
        let record_mark_offset = if include_record_mark {
            Some(enc.reserve_u32())
        } else {
            None
        };
        let body_start: usize = enc.len();
        enc.put_u32(xid);
        enc.put_u32(msg_type::CALL);
        enc.put_u32(RPC_VERSION);
        enc.put_u32(program);
        enc.put_u32(version);
        enc.put_u32(procedure);
        let call = RpcCall { enc, record_mark_offset, body_start };
        assert(call@.bytes =~= CallModel::new(
            xid,
            program,
            version,
            procedure,
            include_record_mark,
        ).bytes);
        call
    }

    /// Appends credential and verifier, both already encoded.
    pub fn with_auth(self, cred: &[u8], verf: &[u8]) -> (call: Self)
        requires
            self@.bytes.len() + cred@.len() + verf@.len() <= isize::MAX,
        ensures
            call@ == self@.with_auth(cred@, verf@),
            self@.wf() ==> call@.wf(),
    {
        let mut call = self;
        call.enc.put_raw(cred);
        call.enc.put_raw(verf);
        call
    }

    /// Appends `AUTH_NONE` as credential and as verifier.
    pub fn with_auth_none(self) -> (call: Self)
        requires
            self@.bytes.len() + 16 <= isize::MAX,
        ensures
            call@ == self@.with_auth(none_credential(), none_credential()),
            self@.wf() ==> call@.wf(),
    {
        let auth = auth_none();
        self.with_auth(auth.as_slice(), auth.as_slice())
    }

    /// Appends `AUTH_SYS` credentials without supplementary groups, and
    /// `AUTH_NONE` as verifier.
    pub fn with_auth_sys(self, machine: &str, uid: u32, gid: u32) -> (call: Self)
        requires
            self@.bytes.len() + sys_credential_len(machine.spec_bytes().len(), 0) + 8
                <= isize::MAX,
        ensures
            call@ == self@.with_auth(
                sys_credential(machine.spec_bytes(), uid, gid, Seq::empty()),
                none_credential(),
            ),
            self@.wf() ==> call@.wf(),
    {
        let no_groups: [u32; 0] = [];
        let cred = auth_sys(machine, uid, gid, no_groups.as_slice());
        let verf = auth_none();
        self.with_auth(cred.as_slice(), verf.as_slice())
    }

    /// Appends the arguments of the procedure, already encoded.
    pub fn with_args(self, args: &[u8]) -> (call: Self)
        requires
            self@.bytes.len() + args@.len() <= isize::MAX,
        ensures
            call@ == self@.with_args(args@),
            self@.wf() ==> call@.wf(),
    {
        let mut call = self;
        call.enc.put_raw(args);
        call
    }

    /// The encoder behind the call, for writing anything at all into the
    /// message. Where the record mark was reserved and where the body starts
    /// stay as they are.
    pub fn encoder(&mut self) -> (enc: &mut XdrEncoder)
        ensures
            enc@ == old(self)@.bytes,
            final(self)@ == (CallModel { bytes: final(enc)@, ..old(self)@ }),
    {
        &mut self.enc
    }

    /// Finishes the message. Where a record mark was reserved, it is filled
    /// in with the last-fragment bit and the length of the body.
    pub fn build(self) -> (msg: BytesMut)
        requires
            self@.wf(),
        ensures
            buf_contents(msg) == self@.finalized(),
            self@.mark is None ==> buf_contents(msg) == self@.bytes,
            buf_contents(msg).len() == self@.bytes.len(),
    {
        let mut call = self;
        if let Some(offset) = call.record_mark_offset {
            let body_len: u32 = len_field(call.enc.len() - call.body_start);
            let record_mark: u32 = 0x8000_0000 | body_len;
            proof {
                assert(0x8000_0000u32 | body_len == 0x8000_0000 + body_len % 0x8000_0000)
                    by (bit_vector);
                lemma_record_mark_of_low32((call@.bytes.len() - call@.body_start) as nat);
            }
            call.enc.fill_u32(offset, record_mark);
        }
        call.enc.into_bytes()
    }
}

/// Builds a framed call without arguments and with `AUTH_NONE` credentials,
/// under the next transaction id of `generator`.
pub fn simple_rpc_call(
    generator: &mut XidGenerator,
    program: u32,
    version: u32,
    procedure: u32,
) -> (msg: BytesMut)
    ensures
        buf_contents(msg) == simple_call(old(generator)@, program, version, procedure),
        final(generator)@ == xid_after(old(generator)@, 1),
{
    let xid: u32 = next_xid(generator);
    proof {
        lemma_simple_call(xid, program, version, procedure);
    }
    RpcCall::new(xid, program, version, procedure, true).with_auth_none().build()
}

} // verus!
