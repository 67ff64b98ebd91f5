use vstd::prelude::*;
use crate::address::{
    authority_seeds, authorized_buffer_address, derived_address, found_view, is_canonical_bump,
    is_derivation, lemma_derivation_deterministic, make_authority_seeds,
    make_vending_machine_seeds, push_bump_seed, same_address, seeds_view,
    try_find_program_address, vending_machine_seeds, with_bump,
};
use crate::buffer::{echo_fill, with_header, with_payload, write_echo, write_header, write_payload};
use crate::codec::{
    encode_header, header_bytes, spec_decode_instruction, AuthorizedBufferHeader, EchoInstruction,
    InstructionView, VendingMachineBufferHeader, AUTH_BUFFER_HEADER_SIZE,
    VENDING_MACHINE_HEADER_SIZE,
};
use crate::error::ProcessError;
use crate::mint::{is_mint_layout, is_token_mint};

verus! {

/// An account handed to the program: its address and its bytes.
#[derive(Debug)]
pub struct Account {
    pub key: [u8; 32],
    pub data: Vec<u8>,
}

/// A request to the host to create a program-owned account at a derived
/// address, signed for by the program through the seeds, and the header to
/// lay over its bytes once it exists.
#[derive(Debug)]
pub struct CreateAccountRequest {
    /// Index, among the instruction's accounts, of the account that pays.
    pub payer: usize,
    /// Index, among the instruction's accounts, of the account to create.
    pub target: usize,
    pub address: [u8; 32],
    pub bump_seed: u8,
    /// Size in bytes of the new account.
    pub space: usize,
    /// The derivation seeds, the bump last.
    pub signer_seeds: Vec<Vec<u8>>,
    pub header: Vec<u8>,
}

/// What the host does next once an instruction has been processed.
#[derive(Debug)]
pub enum Action {
    /// Nothing: the instruction is complete.
    Done,
    /// Create an authorized buffer, then call [`Processor::complete_creation`].
    CreateAuthorizedBuffer(CreateAccountRequest),
    /// Create a vending-machine buffer, then call
    /// [`Processor::complete_creation`]. `mint_well_formed` tells whether the
    /// mint account unpacked as a token mint; it is reported, not enforced.
    CreateVendingMachineBuffer { request: CreateAccountRequest, mint_well_formed: bool },
}

/// `address` and `bump` are the canonical derivation of `seeds`.
pub open spec fn is_canonical_address(
    seeds: Seq<Seq<u8>>,
    program_id: Seq<u8>,
    address: Seq<u8>,
    bump: u8,
) -> bool {
    is_canonical_bump(seeds, program_id, bump) && derived_address(with_bump(seeds, bump), program_id)
        == Some(address)
}

/// No bump from 1 to 255 makes `seeds` a derived address.
pub open spec fn has_no_bump(seeds: Seq<Seq<u8>>, program_id: Seq<u8>) -> bool {
    forall|b: u8| 1 <= b ==> (#[trigger] derived_address(with_bump(seeds, b), program_id)) is None
}

/// The request creates the account at `key`, `space` bytes long, with the
/// canonical derivation of `seeds` and the header that `header_value` and the
/// bump make.
pub open spec fn is_creation_of(
    req: CreateAccountRequest,
    seeds: Seq<Seq<u8>>,
    program_id: Seq<u8>,
    key: Seq<u8>,
    payer: usize,
    space: usize,
    header_value: u64,
) -> bool {
    &&& is_canonical_address(seeds, program_id, key, req.bump_seed)
    &&& req.address@ == key
    &&& req.payer == payer
    &&& req.target == 0
    &&& req.space == space
    &&& seeds_view(&req.signer_seeds) == with_bump(seeds, req.bump_seed)
    &&& req.header@ == header_bytes(req.bump_seed, header_value)
}

/// The outcome of a creation whose size passed its guard: no bump gives
/// `InvalidSeeds`, a canonical address other than `key` gives
/// `InvalidAccountData`, and otherwise the request creates `key`.
pub open spec fn creation_outcome(
    seeds: Seq<Seq<u8>>,
    program_id: Seq<u8>,
    key: Seq<u8>,
    payer: usize,
    space: usize,
    header_value: u64,
    r: Result<CreateAccountRequest, ProcessError>,
) -> bool {
    match r {
        Ok(req) => is_creation_of(req, seeds, program_id, key, payer, space, header_value),
        Err(e) => {
            &&& e == ProcessError::InvalidSeeds || e == ProcessError::InvalidAccountData
            &&& e == ProcessError::InvalidSeeds <==> has_no_bump(seeds, program_id)
            &&& e == ProcessError::InvalidAccountData <==> exists|a: Seq<u8>, b: u8|
                is_canonical_address(seeds, program_id, a, b) && a != key
        },
    }
}

/// What `InitializeAuthorizedEcho` returns: a size that cannot hold more
/// than the header is refused, before any derivation.
pub open spec fn initialize_authorized_echo_outcome(
    program_id: Seq<u8>,
    buffer_key: Seq<u8>,
    authority: Seq<u8>,
    buffer_seed: u64,
    buffer_size: usize,
    r: Result<CreateAccountRequest, ProcessError>,
) -> bool {
    if buffer_size <= AUTH_BUFFER_HEADER_SIZE {
        r == Err::<CreateAccountRequest, ProcessError>(ProcessError::InvalidArgument)
    } else {
        creation_outcome(
            authority_seeds(authority, buffer_seed),
            program_id,
            buffer_key,
            1,
            buffer_size,
            buffer_seed,
            r,
        )
    }
}

/// What `InitializeVendingMachine` returns: a size that cannot hold the
/// header is refused, before any derivation.
pub open spec fn initialize_vending_machine_outcome(
    program_id: Seq<u8>,
    buffer_key: Seq<u8>,
    mint: Seq<u8>,
    price: u64,
    buffer_size: usize,
    r: Result<CreateAccountRequest, ProcessError>,
) -> bool {
    if buffer_size < VENDING_MACHINE_HEADER_SIZE {
        r == Err::<CreateAccountRequest, ProcessError>(ProcessError::InvalidArgument)
    } else {
        creation_outcome(
            vending_machine_seeds(mint, price),
            program_id,
            buffer_key,
            2,
            buffer_size,
            price,
            r,
        )
    }
}

/// What `Echo` does to a buffer.
pub open spec fn echo_outcome(
    old_data: Seq<u8>,
    data: Seq<u8>,
    new_data: Seq<u8>,
    r: Result<(), ProcessError>,
) -> bool {
    if old_data.len() == 0 {
        r == Err::<(), ProcessError>(ProcessError::AccountDataTooSmall) && new_data == old_data
    } else {
        r is Ok && new_data == echo_fill(old_data.len(), data)
    }
}

/// What `AuthorizedEcho` does to a buffer: a buffer too short for a header
/// is refused; one whose header does not derive its own address is refused
/// with `IllegalOwner`; either way it is left as it was. Otherwise the
/// payload after the header is rewritten.
pub open spec fn authorized_echo_outcome(
    program_id: Seq<u8>,
    buffer_key: Seq<u8>,
    authority: Seq<u8>,
    old_data: Seq<u8>,
    data: Seq<u8>,
    new_data: Seq<u8>,
    r: Result<(), ProcessError>,
) -> bool {
    match AuthorizedBufferHeader::spec_decode(old_data) {
        None => r == Err::<(), ProcessError>(ProcessError::AccountDataTooSmall) && new_data
            == old_data,
        Some(h) => if derived_address(
            with_bump(authority_seeds(authority, h.buffer_seed), h.bump_seed),
            program_id,
        ) == Some(buffer_key) {
            r is Ok && new_data == with_payload(old_data, AUTH_BUFFER_HEADER_SIZE as nat, data)
        } else {
            r == Err::<(), ProcessError>(ProcessError::IllegalOwner) && new_data == old_data
        },
    }
}

/// Turns the outcome of a bump search into a creation request for `key`.
fn request_creation(
    seeds: Vec<Vec<u8>>,
    program_id: &[u8; 32],
    key: &[u8; 32],
    found: Option<([u8; 32], u8)>,
    payer: usize,
    space: usize,
    header_value: u64,
) -> (r: Result<CreateAccountRequest, ProcessError>)
    requires
        is_derivation(seeds_view(&seeds), program_id@, found_view(found)),
    ensures
        creation_outcome(seeds_view(&seeds), program_id@, key@, payer, space, header_value, r),
{
    let ghost sv = seeds_view(&seeds);
    match found {
        None => Err(ProcessError::InvalidSeeds),
        Some((address, bump_seed)) => {
            assert(is_canonical_address(sv, program_id@, address@, bump_seed));
            if !same_address(&address, key) {
                return Err(ProcessError::InvalidAccountData);
            }
            assert forall|a: Seq<u8>, b: u8| is_canonical_address(sv, program_id@, a, b) implies a
                == key@ by {
                lemma_derivation_deterministic(
                    sv,
                    program_id@,
                    Some((a, b)),
                    Some((address@, bump_seed)),
                );
            }
            let mut signer_seeds = seeds;
            push_bump_seed(&mut signer_seeds, bump_seed);
            let header = encode_header(bump_seed, header_value);
            Ok(
                CreateAccountRequest {
                    payer,
                    target: 0,
                    address,
                    bump_seed,
                    space,
                    signer_seeds,
                    header,
                },
            )
        },
    }
}

/// The unit outcome of an instruction that writes in place; such an
/// instruction never asks for an account to be created.
pub open spec fn write_result(r: Result<Action, ProcessError>) -> Result<(), ProcessError> {
    match r {
        Ok(_) => Ok(()),
        Err(e) => Err(e),
    }
}

/// Only the first account's bytes may have changed, to `data0`.
pub open spec fn only_first_data_changed(
    before: Seq<Account>,
    after: Seq<Account>,
    data0: Seq<u8>,
) -> bool {
    &&& after.len() == before.len()
    &&& after[0].key == before[0].key
    &&& after[0].data@ == data0
    &&& forall|i: int| 1 <= i < before.len() ==> #[trigger] after[i] == before[i]
}

/// What processing `instruction_data` against `before` returns, `after`
/// being the accounts once it has run. Bytes that do not decode are refused
/// before any account is read; each instruction then needs its accounts, in
/// order: `Echo` the buffer; `InitializeAuthorizedEcho` the buffer, the
/// authority and the system program (its size guard comes first);
/// `AuthorizedEcho` the buffer and the authority; `InitializeVendingMachine`
/// the buffer, the mint, the payer and the system program.
pub open spec fn process_outcome(
    program_id: Seq<u8>,
    before: Seq<Account>,
    instruction_data: Seq<u8>,
    after: Seq<Account>,
    r: Result<Action, ProcessError>,
) -> bool {
    match spec_decode_instruction(instruction_data) {
        None => r == Err::<Action, ProcessError>(ProcessError::InvalidInstructionData) && after
            == before,
        Some(InstructionView::Echo { data }) => if before.len() < 1 {
            r == Err::<Action, ProcessError>(ProcessError::NotEnoughAccountKeys) && after == before
        } else {
            &&& r is Ok ==> r == Ok::<Action, ProcessError>(Action::Done)
            &&& echo_outcome(before[0].data@, data, after[0].data@, write_result(r))
            &&& only_first_data_changed(before, after, after[0].data@)
        },
        Some(InstructionView::InitializeAuthorizedEcho { buffer_seed, buffer_size }) => {
            &&& after == before
            &&& if buffer_size <= AUTH_BUFFER_HEADER_SIZE {
                r == Err::<Action, ProcessError>(ProcessError::InvalidArgument)
            } else if before.len() < 3 {
                r == Err::<Action, ProcessError>(ProcessError::NotEnoughAccountKeys)
            } else {
                match r {
                    Ok(Action::CreateAuthorizedBuffer(req)) => initialize_authorized_echo_outcome(
                        program_id,
                        before[0].key@,
                        before[1].key@,
                        buffer_seed,
                        buffer_size,
                        Ok(req),
                    ),
                    Ok(_) => false,
                    Err(e) => initialize_authorized_echo_outcome(
                        program_id,
                        before[0].key@,
                        before[1].key@,
                        buffer_seed,
                        buffer_size,
                        Err(e),
                    ),
                }
            }
        },
        Some(InstructionView::AuthorizedEcho { data }) => if before.len() < 2 {
            r == Err::<Action, ProcessError>(ProcessError::NotEnoughAccountKeys) && after == before
        } else {
            &&& r is Ok ==> r == Ok::<Action, ProcessError>(Action::Done)
            &&& authorized_echo_outcome(
                program_id,
                before[0].key@,
                before[1].key@,
                before[0].data@,
                data,
                after[0].data@,
                write_result(r),
            )
            &&& only_first_data_changed(before, after, after[0].data@)
        },
        Some(InstructionView::InitializeVendingMachine { price, buffer_size }) => {
            &&& after == before
            &&& if before.len() < 4 {
                r == Err::<Action, ProcessError>(ProcessError::NotEnoughAccountKeys)
            } else {
                match r {
                    Ok(Action::CreateVendingMachineBuffer { request, mint_well_formed }) => {
                        &&& mint_well_formed == is_mint_layout(before[1].data@)
                        &&& initialize_vending_machine_outcome(
                            program_id,
                            before[0].key@,
                            before[1].key@,
                            price,
                            buffer_size,
                            Ok(request),
                        )
                    },
                    Ok(_) => false,
                    Err(e) => initialize_vending_machine_outcome(
                        program_id,
                        before[0].key@,
                        before[1].key@,
                        price,
                        buffer_size,
                        Err(e),
                    ),
                }
            }
        },
    }
}

/// The program's instruction processor.
pub struct Processor {}

impl Processor {
    /// `Echo`: writes `data` over the whole buffer, zeros after it.
    pub fn echo(buffer: &mut Vec<u8>, data: &Vec<u8>) -> (r: Result<(), ProcessError>)
        ensures
            echo_outcome(old(buffer)@, data@, final(buffer)@, r),
    {
        write_echo(buffer, data)
    }

    /// `AuthorizedEcho`: re-derives the buffer's address from `authority` and
    /// the header stored in the buffer, and where it is the buffer's own
    /// address, writes `data` after the header, zeros after it.
    pub fn authorized_echo(
        program_id: &[u8; 32],
        buffer_key: &[u8; 32],
        buffer: &mut Vec<u8>,
        authority: &[u8; 32],
        data: &Vec<u8>,
    ) -> (r: Result<(), ProcessError>)
        ensures
            authorized_echo_outcome(
                program_id@,
                buffer_key@,
                authority@,
                old(buffer)@,
                data@,
                final(buffer)@,
                r,
            ),
    {
        let header = match AuthorizedBufferHeader::decode(buffer) {
            Some(h) => h,
            None => return Err(ProcessError::AccountDataTooSmall),
        };
        let address = authorized_buffer_address(
            program_id,
            authority,
            header.buffer_seed,
            header.bump_seed,
        );
        match address {
            Some(a) => {
                if !same_address(&a, buffer_key) {
                    return Err(ProcessError::IllegalOwner);
                }
            },
            None => return Err(ProcessError::IllegalOwner),
        }
        write_payload(buffer, AUTH_BUFFER_HEADER_SIZE, data);
        Ok(())
    }

    /// `InitializeAuthorizedEcho`: checks that the buffer is the canonical
    /// derived address of `authority` and `buffer_seed`, and asks for it to be
    /// created `buffer_size` bytes long, paid by the authority.
    pub fn initialize_authorized_echo(
        program_id: &[u8; 32],
        buffer_key: &[u8; 32],
        authority: &[u8; 32],
        buffer_seed: u64,
        buffer_size: usize,
    ) -> (r: Result<CreateAccountRequest, ProcessError>)
        ensures
            initialize_authorized_echo_outcome(
                program_id@,
                buffer_key@,
                authority@,
                buffer_seed,
                buffer_size,
                r,
            ),
    {
        if buffer_size <= AUTH_BUFFER_HEADER_SIZE {
            return Err(ProcessError::InvalidArgument);
        }
        let seeds = make_authority_seeds(authority, buffer_seed);
        let found = try_find_program_address(&seeds, program_id);
        request_creation(seeds, program_id, buffer_key, found, 1, buffer_size, buffer_seed)
    }

    /// `InitializeVendingMachine`: checks that the buffer is the canonical
    /// derived address of `mint` and `price`, and asks for it to be created
    /// `buffer_size` bytes long, paid by the payer. Also tells whether the
    /// mint account's bytes unpack as a token mint, which does not decide.
    pub fn initialize_vending_machine(
        program_id: &[u8; 32],
        buffer_key: &[u8; 32],
        mint: &[u8; 32],
        mint_data: &Vec<u8>,
        price: u64,
        buffer_size: usize,
    ) -> (r: (Result<CreateAccountRequest, ProcessError>, bool))
        ensures
            r.1 == is_mint_layout(mint_data@),
            initialize_vending_machine_outcome(
                program_id@,
                buffer_key@,
                mint@,
                price,
                buffer_size,
                r.0,
            ),
    {
        let mint_well_formed = is_token_mint(mint_data);
        if buffer_size < VENDING_MACHINE_HEADER_SIZE {
            return (Err(ProcessError::InvalidArgument), mint_well_formed);
        }
        let seeds = make_vending_machine_seeds(mint, price);
        let found = try_find_program_address(&seeds, program_id);
        (
            request_creation(seeds, program_id, buffer_key, found, 2, buffer_size, price),
            mint_well_formed,
        )
    }

    /// Decodes an instruction and runs it on `accounts`. Writes happen in
    /// place; a creation is handed back as an [`Action`] for the host to
    /// perform, after which [`Processor::complete_creation`] lays the header.
    pub fn process_instruction(
        program_id: &[u8; 32],
        accounts: &mut Vec<Account>,
        instruction_data: &Vec<u8>,
    ) -> (r: Result<Action, ProcessError>)
        ensures
            process_outcome(program_id@, old(accounts)@, instruction_data@, final(accounts)@, r),
    {
        let instruction = match EchoInstruction::decode(instruction_data) {
            Some(ix) => ix,
            None => return Err(ProcessError::InvalidInstructionData),
        };
        match instruction {
            EchoInstruction::Echo { data } => {
                if accounts.len() < 1 {
                    return Err(ProcessError::NotEnoughAccountKeys);
                }
                let account = &mut accounts[0];
                let res = Self::echo(&mut account.data, &data);
                match res {
                    Ok(()) => Ok(Action::Done),
                    Err(e) => Err(e),
                }
            },
            EchoInstruction::InitializeAuthorizedEcho { buffer_seed, buffer_size } => {
                if buffer_size <= AUTH_BUFFER_HEADER_SIZE {
                    return Err(ProcessError::InvalidArgument);
                }
                if accounts.len() < 3 {
                    return Err(ProcessError::NotEnoughAccountKeys);
                }
                let buffer_key = accounts[0].key;
                let authority = accounts[1].key;
                match Self::initialize_authorized_echo(
                    program_id,
                    &buffer_key,
                    &authority,
                    buffer_seed,
                    buffer_size,
                ) {
                    Ok(req) => Ok(Action::CreateAuthorizedBuffer(req)),
                    Err(e) => Err(e),
                }
            },
            EchoInstruction::AuthorizedEcho { data } => {
                if accounts.len() < 2 {
                    return Err(ProcessError::NotEnoughAccountKeys);
                }
                let buffer_key = accounts[0].key;
                let authority = accounts[1].key;
                let account = &mut accounts[0];
                let res = Self::authorized_echo(
                    program_id,
                    &buffer_key,
                    &mut account.data,
                    &authority,
                    &data,
                );
                match res {
                    Ok(()) => Ok(Action::Done),
                    Err(e) => Err(e),
                }
            },
            EchoInstruction::InitializeVendingMachine { price, buffer_size } => {
                if accounts.len() < 4 {
                    return Err(ProcessError::NotEnoughAccountKeys);
                }
                let buffer_key = accounts[0].key;
                let mint = accounts[1].key;
                let (res, mint_well_formed) = Self::initialize_vending_machine(
                    program_id,
                    &buffer_key,
                    &mint,
                    &accounts[1].data,
                    price,
                    buffer_size,
                );
                match res {
                    Ok(request) => Ok(Action::CreateVendingMachineBuffer { request, mint_well_formed }),
                    Err(e) => Err(e),
                }
            },
        }
    }

    /// Lays the requested header over the bytes of the account that the host
    /// created for `request`; a buffer shorter than the header is refused and
    /// left as it is.
    pub fn complete_creation(request: &CreateAccountRequest, buffer: &mut Vec<u8>) -> (r: Result<
        (),
        ProcessError,
    >)
        ensures
            old(buffer)@.len() < request.header@.len() ==> r == Err::<(), ProcessError>(
                ProcessError::AccountDataTooSmall,
            ) && final(buffer)@ == old(buffer)@,
            old(buffer)@.len() >= request.header@.len() ==> r is Ok && final(buffer)@
                == with_header(old(buffer)@, request.header@),
    {
        if buffer.len() < request.header.len() {
            return Err(ProcessError::AccountDataTooSmall);
        }
        write_header(buffer, &request.header);
        Ok(())
    }
}

} // verus!
