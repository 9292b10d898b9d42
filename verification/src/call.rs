//! What a call of another program, or its instantiation, consists of, and
//! the bytes in which such a request is handed to the host.

use crate::codec::{Decode, Encode};
use crate::endian::{le_bytes, lemma_le_bytes_injective, lemma_le_bytes_len, lemma_pow256_widths};
use crate::types::{AccountId, Balance, Selector};
use core::marker::PhantomData;
use vstd::prelude::*;
use vstd::slice::slice_subrange;

verus! {

/// The raw input of a call: four bytes of selector, then the encoded
/// arguments, one after the other.
#[derive(Debug)]
pub struct CallData {
    bytes: Vec<u8>,
}

impl View for CallData {
    type V = Seq<u8>;

    closed spec fn view(&self) -> Seq<u8> {
        self.bytes@
    }
}

impl CallData {
    #[verifier::type_invariant]
    spec fn holds_selector(self) -> bool {
        self.bytes@.len() >= 4
    }

    /// Whether the bytes are long enough to hold a selector. Every value
    /// that this module hands out is.
    pub open spec fn well_formed(&self) -> bool {
        self@.len() >= 4
    }

    /// The call data of a call without arguments.
    pub fn new(selector: Selector) -> (data: CallData)
        ensures
            data@ == selector.0@,
            data.well_formed(),
    {
        let mut bytes: Vec<u8> = Vec::with_capacity(4);
        bytes.push(selector.0[0]);
        bytes.push(selector.0[1]);
        bytes.push(selector.0[2]);
        bytes.push(selector.0[3]);
        assert(bytes@ =~= selector.0@);
        CallData { bytes }
    }

    /// Takes `bytes` as call data. There is none in fewer than four bytes.
    pub fn from_bytes(bytes: &[u8]) -> (data: Option<CallData>)
        ensures
            bytes@.len() >= 4 ==> data is Some && data->Some_0@ == bytes@,
            bytes@.len() < 4 ==> data is None,
            data matches Some(d) ==> d.well_formed(),
    {
        if bytes.len() < 4 {
            None
        } else {
            let mut copy: Vec<u8> = Vec::with_capacity(bytes.len());
            copy.extend_from_slice(bytes);
            assert(copy@ =~= bytes@);
            Some(CallData { bytes: copy })
        }
    }

    /// Appends an argument, already encoded.
    pub fn push_arg(&mut self, encoded: &[u8])
        ensures
            final(self)@ == old(self)@ + encoded@,
            final(self).well_formed(),
    {
        proof {
            use_type_invariant(&*self);
        }
        let mut bytes: Vec<u8> = Vec::new();
        bytes.extend_from_slice(self.bytes.as_slice());
        bytes.extend_from_slice(encoded);
        assert(bytes@ =~= self.bytes@ + encoded@);
        *self = CallData { bytes };
    }

    /// The selector: the first four bytes.
    pub fn selector(&self) -> (selector: Selector)
        ensures
            selector.0@ == self@.take(4),
    {
        proof {
            use_type_invariant(self);
        }
        let selector = Selector([self.bytes[0], self.bytes[1], self.bytes[2], self.bytes[3]]);
        assert(selector.0@ =~= self@.take(4));
        selector
    }

    /// The encoded arguments: everything after the selector.
    pub fn params(&self) -> (params: &[u8])
        ensures
            params@ == self@.skip(4),
    {
        proof {
            use_type_invariant(self);
        }
        slice_subrange(self.bytes.as_slice(), 4, self.bytes.len())
    }

    /// All the bytes, selector included.
    pub fn to_bytes(&self) -> (bytes: &[u8])
        ensures
            bytes@ == self@,
            self.well_formed(),
    {
        proof {
            use_type_invariant(self);
        }
        self.bytes.as_slice()
    }
}

impl Encode for CallData {
    open spec fn encoding(&self) -> Seq<u8> {
        self@
    }

    fn encode_to(&self, dest: &mut Vec<u8>) {
        let ghost before = dest@;
        dest.extend_from_slice(self.bytes.as_slice());
        assert(dest@ =~= before + self@);
    }
}

/// The bytes of a request: thirty-two bytes of target, the gas limit in
/// eight bytes and the endowment in sixteen, least significant byte first,
/// then the call data up to the end.
pub open spec fn request_bytes(
    target: Seq<u8>,
    gas_limit: u64,
    endowment: Balance,
    call_data: Seq<u8>,
) -> Seq<u8> {
    target + le_bytes(gas_limit as nat, 8) + le_bytes(endowment as nat, 16) + call_data
}

/// The length of a request without its call data.
pub const REQUEST_HEAD: usize = 56;

/// The least length of a request: its head and a selector.
pub const REQUEST_MIN: usize = 60;

/// The bytes of a request determine each of its parts.
pub proof fn lemma_request_bytes_injective(
    target: Seq<u8>,
    gas_limit: u64,
    endowment: Balance,
    call_data: Seq<u8>,
    other_target: Seq<u8>,
    other_gas_limit: u64,
    other_endowment: Balance,
    other_call_data: Seq<u8>,
)
    requires
        target.len() == 32,
        other_target.len() == 32,
        request_bytes(target, gas_limit, endowment, call_data) == request_bytes(
            other_target,
            other_gas_limit,
            other_endowment,
            other_call_data,
        ),
    ensures
        target == other_target,
        gas_limit == other_gas_limit,
        endowment == other_endowment,
        call_data == other_call_data,
{
    let bytes = request_bytes(target, gas_limit, endowment, call_data);
    let other = request_bytes(other_target, other_gas_limit, other_endowment, other_call_data);
    lemma_le_bytes_len(gas_limit as nat, 8);
    lemma_le_bytes_len(endowment as nat, 16);
    lemma_le_bytes_len(other_gas_limit as nat, 8);
    lemma_le_bytes_len(other_endowment as nat, 16);
    assert(target =~= bytes.subrange(0, 32));
    assert(other_target =~= other.subrange(0, 32));
    assert(le_bytes(gas_limit as nat, 8) =~= bytes.subrange(32, 40));
    assert(le_bytes(other_gas_limit as nat, 8) =~= other.subrange(32, 40));
    assert(le_bytes(endowment as nat, 16) =~= bytes.subrange(40, 56));
    assert(le_bytes(other_endowment as nat, 16) =~= other.subrange(40, 56));
    assert(call_data =~= bytes.skip(56));
    assert(other_call_data =~= other.skip(56));
    lemma_pow256_widths();
    lemma_le_bytes_injective(gas_limit as nat, other_gas_limit as nat, 8);
    lemma_le_bytes_injective(endowment as nat, other_endowment as nat, 16);
}

/// Appends a request to `dest`.
fn write_request(
    target: &[u8; 32],
    gas_limit: u64,
    endowment: Balance,
    call_data: &CallData,
    dest: &mut Vec<u8>,
)
    ensures
        final(dest)@ == old(dest)@ + request_bytes(target@, gas_limit, endowment, call_data@),
{
    let ghost before = dest@;
    AccountId(*target).encode_to(dest);
    gas_limit.encode_to(dest);
    endowment.encode_to(dest);
    call_data.encode_to(dest);
    assert(dest@ =~= before + request_bytes(target@, gas_limit, endowment, call_data@));
}

/// Takes a request apart. There is none in fewer than sixty bytes.
fn read_request(bytes: &[u8]) -> (parts: Option<([u8; 32], u64, Balance, CallData)>)
    ensures
        parts is Some <==> bytes@.len() >= REQUEST_MIN,
        parts matches Some((target, gas_limit, endowment, call_data)) ==> {
            &&& request_bytes(target@, gas_limit, endowment, call_data@) == bytes@
            &&& call_data.well_formed()
        },
{
    if bytes.len() < REQUEST_MIN {
        return None;
    }
    let target = AccountId::decode(slice_subrange(bytes, 0, 32));
    let gas_limit = u64::decode(slice_subrange(bytes, 32, 40));
    let endowment = u128::decode(slice_subrange(bytes, 40, REQUEST_HEAD));
    let call_data = CallData::from_bytes(slice_subrange(bytes, REQUEST_HEAD, bytes.len()));
    match (target, gas_limit, endowment, call_data) {
        (Some(target), Some(gas_limit), Some(endowment), Some(call_data)) => {
            assert(request_bytes(target.0@, gas_limit, endowment, call_data@) =~= bytes@);
            Some((target.0, gas_limit, endowment, call_data))
        },
        _ => None,
    }
}

/// What a message call consists of, as plain values.
pub struct CallParamsView {
    /// The address of the program that is called.
    pub callee: Seq<u8>,
    /// The gas that the call may use.
    pub gas_limit: u64,
    /// The value that is transferred with the call.
    pub endowment: Balance,
    /// The selector and the encoded arguments.
    pub call_data: Seq<u8>,
}

/// Marks a call as one that yields a value of type `R`.
///
/// It only selects how the result is decoded; no value of it is ever made.
pub struct ReturnType<R> {
    marker: PhantomData<R>,
}

/// A message call of a program that exists. `R` says what comes back:
/// `()` where the call is made for its effects, [`ReturnType`] where it
/// yields a value.
pub struct CallParams<R> {
    callee: AccountId,
    gas_limit: u64,
    endowment: Balance,
    call_data: CallData,
    return_type: PhantomData<R>,
}

impl<R> View for CallParams<R> {
    type V = CallParamsView;

    closed spec fn view(&self) -> CallParamsView {
        CallParamsView {
            callee: self.callee.0@,
            gas_limit: self.gas_limit,
            endowment: self.endowment,
            call_data: self.call_data@,
        }
    }
}

impl CallParamsView {
    /// Whether the parts have the lengths that the types give them.
    pub open spec fn well_formed(self) -> bool {
        self.callee.len() == 32 && self.call_data.len() >= 4
    }

    /// The bytes that stand for a call of these parts.
    pub open spec fn encoding(self) -> Seq<u8> {
        request_bytes(self.callee, self.gas_limit, self.endowment, self.call_data)
    }
}

impl<R> CallParams<R> {
    /// Starts the description of a call of `callee`. The selector is all
    /// zeros and there are no arguments until they are given.
    pub fn build(callee: AccountId, gas_limit: u64, endowment: Balance) -> (builder: CallBuilder<R>)
        ensures
            builder@ == (CallParamsView {
                callee: callee.0@,
                gas_limit,
                endowment,
                call_data: seq![0u8, 0u8, 0u8, 0u8],
            }),
    {
        let builder = CallBuilder {
            callee,
            gas_limit,
            endowment,
            selector: Selector([0u8, 0u8, 0u8, 0u8]),
            args: Vec::new(),
            return_type: PhantomData,
        };
        assert(builder@.call_data =~= seq![0u8, 0u8, 0u8, 0u8]);
        builder
    }

    /// Reads a call from the bytes of a request.
    pub fn decode(bytes: &[u8]) -> (decoded: Option<CallParams<R>>)
        ensures
            decodes_call(bytes@, decoded),
    {
        match read_request(bytes) {
            Some((callee, gas_limit, endowment, call_data)) => Some(
                CallParams {
                    callee: AccountId(callee),
                    gas_limit,
                    endowment,
                    call_data,
                    return_type: PhantomData,
                },
            ),
            None => None,
        }
    }

    /// The address of the program that is called.
    pub fn callee(&self) -> (callee: AccountId)
        ensures
            callee.0@ == self@.callee,
    {
        self.callee
    }

    /// The gas that the call may use.
    pub fn gas_limit(&self) -> (gas_limit: u64)
        ensures
            gas_limit == self@.gas_limit,
    {
        self.gas_limit
    }

    /// The value that is transferred with the call.
    pub fn endowment(&self) -> (endowment: Balance)
        ensures
            endowment == self@.endowment,
    {
        self.endowment
    }

    /// The selector and the encoded arguments.
    pub fn input_data(&self) -> (call_data: &CallData)
        ensures
            call_data@ == self@.call_data,
            self@.well_formed(),
    {
        proof {
            use_type_invariant(&self.call_data);
        }
        &self.call_data
    }
}

/// What reading a call from `bytes` owes: a call whose encoding is `bytes`,
/// and nothing only where `bytes` is too short to hold one.
pub open spec fn decodes_call<R>(bytes: Seq<u8>, decoded: Option<CallParams<R>>) -> bool {
    match decoded {
        Some(params) => params@.well_formed() && params@.encoding() == bytes,
        None => bytes.len() < REQUEST_MIN,
    }
}

impl<R> Encode for CallParams<R> {
    open spec fn encoding(&self) -> Seq<u8> {
        self@.encoding()
    }

    fn encode_to(&self, dest: &mut Vec<u8>) {
        write_request(&self.callee.0, self.gas_limit, self.endowment, &self.call_data, dest)
    }
}

/// A call that is being described.
pub struct CallBuilder<R> {
    callee: AccountId,
    gas_limit: u64,
    endowment: Balance,
    selector: Selector,
    args: Vec<u8>,
    return_type: PhantomData<R>,
}

impl<R> View for CallBuilder<R> {
    type V = CallParamsView;

    /// The call as it would be if the description ended here.
    closed spec fn view(&self) -> CallParamsView {
        CallParamsView {
            callee: self.callee.0@,
            gas_limit: self.gas_limit,
            endowment: self.endowment,
            call_data: self.selector.0@ + self.args@,
        }
    }
}

impl<R> CallBuilder<R> {
    /// Names the function that is called.
    pub fn selector(self, selector: Selector) -> (builder: CallBuilder<R>)
        ensures
            builder@ == (CallParamsView {
                call_data: selector.0@ + self@.call_data.skip(4),
                ..self@
            }),
    {
        let builder = CallBuilder {
            callee: self.callee,
            gas_limit: self.gas_limit,
            endowment: self.endowment,
            selector,
            args: self.args,
            return_type: PhantomData,
        };
        assert(self@.call_data.skip(4) =~= self.args@);
        builder
    }

    /// Appends an argument, already encoded.
    pub fn push_arg(self, encoded: &[u8]) -> (builder: CallBuilder<R>)
        ensures
            builder@ == (CallParamsView { call_data: self@.call_data + encoded@, ..self@ }),
    {
        let mut args = self.args;
        args.extend_from_slice(encoded);
        let builder = CallBuilder {
            callee: self.callee,
            gas_limit: self.gas_limit,
            endowment: self.endowment,
            selector: self.selector,
            args,
            return_type: PhantomData,
        };
        assert(builder@.call_data =~= self@.call_data + encoded@);
        builder
    }

    /// Ends the description.
    pub fn finish(self) -> (params: CallParams<R>)
        ensures
            params@ == self@,
            params@.well_formed(),
    {
        let mut call_data = CallData::new(self.selector);
        call_data.push_arg(self.args.as_slice());
        CallParams {
            callee: self.callee,
            gas_limit: self.gas_limit,
            endowment: self.endowment,
            call_data,
            return_type: PhantomData,
        }
    }
}

/// A call that is written out and read back is the same call.
pub proof fn lemma_call_round_trip<R>(params: CallParams<R>, decoded: Option<CallParams<R>>)
    requires
        params@.well_formed(),
        decodes_call(params.encoding(), decoded),
    ensures
        decoded is Some,
        decoded->Some_0@ == params@,
{
    lemma_le_bytes_len(params@.gas_limit as nat, 8);
    lemma_le_bytes_len(params@.endowment as nat, 16);
    match decoded {
        Some(other) => {
            lemma_request_bytes_injective(
                params@.callee,
                params@.gas_limit,
                params@.endowment,
                params@.call_data,
                other@.callee,
                other@.gas_limit,
                other@.endowment,
                other@.call_data,
            );
        },
        None => {},
    }
}

/// A call that was described with callee, gas limit, endowment, selector
/// and two arguments, written out and read back, shows each of them again.
pub proof fn lemma_described_call_round_trip<R>(
    callee: AccountId,
    gas_limit: u64,
    endowment: Balance,
    selector: Selector,
    first: Seq<u8>,
    second: Seq<u8>,
    params: CallParams<R>,
    decoded: Option<CallParams<R>>,
)
    requires
        params@ == (CallParamsView {
            callee: callee.0@,
            gas_limit,
            endowment,
            call_data: selector.0@ + first + second,
        }),
        decodes_call(params.encoding(), decoded),
    ensures
        decoded matches Some(seen) && {
            &&& seen@.callee == callee.0@
            &&& seen@.gas_limit == gas_limit
            &&& seen@.endowment == endowment
            &&& seen@.call_data.take(4) == selector.0@
            &&& seen@.call_data.skip(4) == first + second
        },
{
    lemma_call_round_trip(params, decoded);
    assert(params@.call_data.take(4) =~= selector.0@);
    assert(params@.call_data.skip(4) =~= first + second);
}

/// What an instantiation consists of, as plain values.
pub struct CreateParamsView {
    /// The hash of the code that is instantiated.
    pub code_hash: Seq<u8>,
    /// The gas that the instantiation may use.
    pub gas_limit: u64,
    /// The value that the new program starts with.
    pub endowment: Balance,
    /// The selector of the constructor and its encoded arguments.
    pub call_data: Seq<u8>,
}

impl CreateParamsView {
    /// Whether the parts have the lengths that the types give them.
    pub open spec fn well_formed(self) -> bool {
        self.code_hash.len() == 32 && self.call_data.len() >= 4
    }

    /// The bytes that stand for an instantiation of these parts.
    pub open spec fn encoding(self) -> Seq<u8> {
        request_bytes(self.code_hash, self.gas_limit, self.endowment, self.call_data)
    }
}

/// The instantiation of a program from code that the host holds.
pub struct CreateParams {
    code_hash: crate::types::Hash,
    gas_limit: u64,
    endowment: Balance,
    call_data: CallData,
}

impl View for CreateParams {
    type V = CreateParamsView;

    closed spec fn view(&self) -> CreateParamsView {
        CreateParamsView {
            code_hash: self.code_hash.0@,
            gas_limit: self.gas_limit,
            endowment: self.endowment,
            call_data: self.call_data@,
        }
    }
}

impl CreateParams {
    /// Starts the description of an instantiation of the code with hash
    /// `code_hash`. The selector is all zeros and there are no arguments
    /// until they are given.
    pub fn build(code_hash: crate::types::Hash, gas_limit: u64, endowment: Balance) -> (builder:
        CreateBuilder)
        ensures
            builder@ == (CreateParamsView {
                code_hash: code_hash.0@,
                gas_limit,
                endowment,
                call_data: seq![0u8, 0u8, 0u8, 0u8],
            }),
    {
        let builder = CreateBuilder {
            code_hash,
            gas_limit,
            endowment,
            selector: Selector([0u8, 0u8, 0u8, 0u8]),
            args: Vec::new(),
        };
        assert(builder@.call_data =~= seq![0u8, 0u8, 0u8, 0u8]);
        builder
    }

    /// Reads an instantiation from the bytes of a request.
    pub fn decode(bytes: &[u8]) -> (decoded: Option<CreateParams>)
        ensures
            decodes_create(bytes@, decoded),
    {
        match read_request(bytes) {
            Some((code_hash, gas_limit, endowment, call_data)) => Some(
                CreateParams {
                    code_hash: crate::types::Hash(code_hash),
                    gas_limit,
                    endowment,
                    call_data,
                },
            ),
            None => None,
        }
    }

    /// The hash of the code that is instantiated.
    pub fn code_hash(&self) -> (code_hash: crate::types::Hash)
        ensures
            code_hash.0@ == self@.code_hash,
    {
        self.code_hash
    }

    /// The gas that the instantiation may use.
    pub fn gas_limit(&self) -> (gas_limit: u64)
        ensures
            gas_limit == self@.gas_limit,
    {
        self.gas_limit
    }

    /// The value that the new program starts with.
    pub fn endowment(&self) -> (endowment: Balance)
        ensures
            endowment == self@.endowment,
    {
        self.endowment
    }

    /// The selector of the constructor and its encoded arguments.
    pub fn input_data(&self) -> (call_data: &CallData)
        ensures
            call_data@ == self@.call_data,
            self@.well_formed(),
    {
        proof {
            use_type_invariant(&self.call_data);
        }
        &self.call_data
    }
}

/// What reading an instantiation from `bytes` owes: one whose encoding is
/// `bytes`, and nothing only where `bytes` is too short to hold one.
pub open spec fn decodes_create(bytes: Seq<u8>, decoded: Option<CreateParams>) -> bool {
    match decoded {
        Some(params) => params@.well_formed() && params@.encoding() == bytes,
        None => bytes.len() < REQUEST_MIN,
    }
}

impl Encode for CreateParams {
    open spec fn encoding(&self) -> Seq<u8> {
        self@.encoding()
    }

    fn encode_to(&self, dest: &mut Vec<u8>) {
        write_request(&self.code_hash.0, self.gas_limit, self.endowment, &self.call_data, dest)
    }
}

/// An instantiation that is being described.
pub struct CreateBuilder {
    code_hash: crate::types::Hash,
    gas_limit: u64,
    endowment: Balance,
    selector: Selector,
    args: Vec<u8>,
}

impl View for CreateBuilder {
    type V = CreateParamsView;

    /// The instantiation as it would be if the description ended here.
    closed spec fn view(&self) -> CreateParamsView {
        CreateParamsView {
            code_hash: self.code_hash.0@,
            gas_limit: self.gas_limit,
            endowment: self.endowment,
            call_data: self.selector.0@ + self.args@,
        }
    }
}

impl CreateBuilder {
    /// Names the constructor that is called.
    pub fn selector(self, selector: Selector) -> (builder: CreateBuilder)
        ensures
            builder@ == (CreateParamsView {
                call_data: selector.0@ + self@.call_data.skip(4),
                ..self@
            }),
    {
        let builder = CreateBuilder {
            code_hash: self.code_hash,
            gas_limit: self.gas_limit,
            endowment: self.endowment,
            selector,
            args: self.args,
        };
        assert(self@.call_data.skip(4) =~= self.args@);
        builder
    }

    /// Appends an argument, already encoded.
    pub fn push_arg(self, encoded: &[u8]) -> (builder: CreateBuilder)
        ensures
            builder@ == (CreateParamsView { call_data: self@.call_data + encoded@, ..self@ }),
    {
        let mut args = self.args;
        args.extend_from_slice(encoded);
        let builder = CreateBuilder {
            code_hash: self.code_hash,
            gas_limit: self.gas_limit,
            endowment: self.endowment,
            selector: self.selector,
            args,
        };
        assert(builder@.call_data =~= self@.call_data + encoded@);
        builder
    }

    /// Ends the description.
    pub fn finish(self) -> (params: CreateParams)
        ensures
            params@ == self@,
            params@.well_formed(),
    {
        let mut call_data = CallData::new(self.selector);
        call_data.push_arg(self.args.as_slice());
        CreateParams {
            code_hash: self.code_hash,
            gas_limit: self.gas_limit,
            endowment: self.endowment,
            call_data,
        }
    }
}

/// An instantiation that is written out and read back is the same
/// instantiation.
pub proof fn lemma_create_round_trip(params: CreateParams, decoded: Option<CreateParams>)
    requires
        params@.well_formed(),
        decodes_create(params.encoding(), decoded),
    ensures
        decoded is Some,
        decoded->Some_0@ == params@,
{
    lemma_le_bytes_len(params@.gas_limit as nat, 8);
    lemma_le_bytes_len(params@.endowment as nat, 16);
    match decoded {
        Some(other) => {
            lemma_request_bytes_injective(
                params@.code_hash,
                params@.gas_limit,
                params@.endowment,
                params@.call_data,
                other@.code_hash,
                other@.gas_limit,
                other@.endowment,
                other@.call_data,
            );
        },
        None => {},
    }
}

} // verus!
