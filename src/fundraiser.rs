use vstd::prelude::*;

use crate::bytes::{le_to_u64, le_value, u64_to_le};

verus! {

/// Why a fundraiser instruction failed.
#[derive(Clone, Copy, Debug, PartialEq, Eq, Structural)]
pub enum FundraiserError {
    InvalidInstructionData,
    InvalidAccountData,
    IllegalOwner,
    AmountTooSmall,
}

/// The instructions of the fundraiser program, by their one-byte tag.
#[derive(Clone, Copy, Debug, PartialEq, Eq, Structural)]
pub enum FundraiserInstructions {
    Initialize,
}

impl FundraiserInstructions {
    /// The instruction that `value` tags: `0` is `Initialize`; no other tag
    /// is known.
    pub fn try_from(value: &u8) -> (r: Result<FundraiserInstructions, FundraiserError>)
        ensures
            *value == 0 ==> r == Ok::<FundraiserInstructions, FundraiserError>(FundraiserInstructions::Initialize),
            *value != 0 ==> r == Err::<FundraiserInstructions, FundraiserError>(FundraiserError::InvalidInstructionData),
    {
        match *value {
            0 => Ok(FundraiserInstructions::Initialize),
            _ => Err(FundraiserError::InvalidInstructionData),
        }
    }
}

/// The fundraiser's state record, stored as its fields' bytes in order.
#[derive(Clone, Copy, Debug, PartialEq, Eq)]
pub struct Fundraiser {
    pub maker: [u8; 32],
    pub mint_to_raise: [u8; 32],
    pub amount_to_raise: [u8; 8],
    pub current_amount: [u8; 8],
    pub time_started: [u8; 8],
    pub duration: u8,
    pub bump: u8,
}

/// Byte length of a stored fundraiser record.
pub const FUNDRAISER_LEN: usize = 90;

/// The stored form of a record: its fields' bytes in declaration order.
pub open spec fn fundraiser_bytes(f: Fundraiser) -> Seq<u8> {
    f.maker@ + f.mint_to_raise@ + f.amount_to_raise@ + f.current_amount@ + f.time_started@ + seq![f.duration, f.bump]
}

fn copy_32(data: &[u8], start: usize) -> (r: [u8; 32])
    requires
        start + 32 <= data@.len(),
    ensures
        r@ == data@.subrange(start as int, start + 32),
{
    let mut out = [0u8; 32];
    let n = data.len();
    let mut i: usize = 0;
    while i < 32
        invariant
            0 <= i <= 32,
            n == data@.len(),
            start + 32 <= data@.len(),
            forall|j: int| 0 <= j < i ==> out@[j] == data@[start + j],
        decreases 32 - i,
    {
        out[i] = data[start + i];
        i = i + 1;
    }
    assert(out@ =~= data@.subrange(start as int, start + 32));
    out
}

fn copy_8(data: &[u8], start: usize) -> (r: [u8; 8])
    requires
        start + 8 <= data@.len(),
    ensures
        r@ == data@.subrange(start as int, start + 8),
{
    let mut out = [0u8; 8];
    let n = data.len();
    let mut i: usize = 0;
    while i < 8
        invariant
            0 <= i <= 8,
            n == data@.len(),
            start + 8 <= data@.len(),
            forall|j: int| 0 <= j < i ==> out@[j] == data@[start + j],
        decreases 8 - i,
    {
        out[i] = data[start + i];
        i = i + 1;
    }
    assert(out@ =~= data@.subrange(start as int, start + 8));
    out
}

fn array_8(v: &Vec<u8>) -> (r: [u8; 8])
    requires
        v@.len() == 8,
    ensures
        r@ == v@,
{
    copy_8(v.as_slice(), 0)
}

impl Fundraiser {
    pub const LEN: usize = 90;

    /// Reads a record from an account's data, which must be exactly
    /// [`FUNDRAISER_LEN`] bytes.
    pub fn from_account_info(data: &[u8]) -> (r: Result<Fundraiser, FundraiserError>)
        ensures
            data@.len() != FUNDRAISER_LEN ==> r == Err::<Fundraiser, FundraiserError>(
                FundraiserError::InvalidAccountData,
            ),
            data@.len() == FUNDRAISER_LEN ==> (r matches Ok(f) && fundraiser_bytes(f) == data@),
    {
        if data.len() != FUNDRAISER_LEN {
            return Err(FundraiserError::InvalidAccountData);
        }
        let f = Fundraiser {
            maker: copy_32(data, 0),
            mint_to_raise: copy_32(data, 32),
            amount_to_raise: copy_8(data, 64),
            current_amount: copy_8(data, 72),
            time_started: copy_8(data, 80),
            duration: data[88],
            bump: data[89],
        };
        assert(fundraiser_bytes(f) =~= data@);
        Ok(f)
    }

    /// The record's stored form.
    pub fn to_bytes(&self) -> (r: Vec<u8>)
        ensures
            r@ == fundraiser_bytes(*self),
    {
        let mut out: Vec<u8> = Vec::new();
        let mut i: usize = 0;
        while i < 32
            invariant
                0 <= i <= 32,
                out@ =~= self.maker@.subrange(0, i as int),
            decreases 32 - i,
        {
            out.push(self.maker[i]);
            i = i + 1;
        }
        let mut i: usize = 0;
        while i < 32
            invariant
                0 <= i <= 32,
                out@ =~= self.maker@ + self.mint_to_raise@.subrange(0, i as int),
            decreases 32 - i,
        {
            out.push(self.mint_to_raise[i]);
            i = i + 1;
        }
        let mut i: usize = 0;
        while i < 8
            invariant
                0 <= i <= 8,
                out@ =~= self.maker@ + self.mint_to_raise@ + self.amount_to_raise@.subrange(0, i as int),
            decreases 8 - i,
        {
            out.push(self.amount_to_raise[i]);
            i = i + 1;
        }
        let mut i: usize = 0;
        while i < 8
            invariant
                0 <= i <= 8,
                out@ =~= self.maker@ + self.mint_to_raise@ + self.amount_to_raise@ + self.current_amount@.subrange(
                    0,
                    i as int,
                ),
            decreases 8 - i,
        {
            out.push(self.current_amount[i]);
            i = i + 1;
        }
        let mut i: usize = 0;
        while i < 8
            invariant
                0 <= i <= 8,
                out@ =~= self.maker@ + self.mint_to_raise@ + self.amount_to_raise@ + self.current_amount@
                    + self.time_started@.subrange(0, i as int),
            decreases 8 - i,
        {
            out.push(self.time_started[i]);
            i = i + 1;
        }
        out.push(self.duration);
        out.push(self.bump);
        assert(out@ =~= fundraiser_bytes(*self));
        out
    }
}

/// The arguments of the initialize instruction: the record's bump, the
/// amount to raise (eight little-endian bytes) and the duration.
#[derive(Clone, Copy, Debug, PartialEq, Eq)]
pub struct InitializeData {
    pub bump: u8,
    pub amount_to_raise: [u8; 8],
    pub duration: u8,
}

/// Relies on `wincode::deserialize` of a `(u8, [u8; 8], u8)`: the fields'
/// bytes in order, with no length prefix for the array; trailing bytes are
/// ignored.
#[verifier::external_body]
fn decode_initialize_data(data: &[u8]) -> (r: Option<(u8, [u8; 8], u8)>)
    ensures
        r is None <==> data@.len() < 10,
        r matches Some(t) ==> t.0 == data@[0] && t.1@ == data@.subrange(1, 9) && t.2 == data@[9],
{
    wincode::deserialize::<(u8, [u8; 8], u8)>(data).ok()
}

impl InitializeData {
    /// Reads the arguments from instruction data.
    pub fn parse(data: &[u8]) -> (r: Result<InitializeData, FundraiserError>)
        ensures
            data@.len() < 10 ==> r == Err::<InitializeData, FundraiserError>(FundraiserError::InvalidInstructionData),
            data@.len() >= 10 ==> (r matches Ok(d) && d.bump == data@[0] && d.amount_to_raise@ == data@.subrange(1, 9)
                && d.duration == data@[9]),
    {
        match decode_initialize_data(data) {
            Some((bump, amount_to_raise, duration)) => Ok(InitializeData { bump, amount_to_raise, duration }),
            None => Err(FundraiserError::InvalidInstructionData),
        }
    }
}

/// Whether the account that is to hold the record is already the
/// program's.
pub open spec fn initialize_outcome(data: Seq<u8>, owned_by_program: bool, minimum: u64) -> Result<(), FundraiserError> {
    if data.len() < 10 {
        Err(FundraiserError::InvalidInstructionData)
    } else if le_value(data.subrange(1, 9)) <= minimum {
        Err(FundraiserError::AmountTooSmall)
    } else if owned_by_program {
        Err(FundraiserError::IllegalOwner)
    } else {
        Ok(())
    }
}

/// The record that the initialize instruction creates for `maker`, raising
/// `mint`: the amount to raise must exceed `minimum`, and the record's
/// account must not already belong to the program. The raise starts at
/// `now` with nothing collected.
pub fn process_initialize_instruction(
    maker: &[u8; 32],
    mint: &[u8; 32],
    owned_by_program: bool,
    minimum: u64,
    now: i64,
    data: &[u8],
) -> (r: Result<Fundraiser, FundraiserError>)
    ensures
        r matches Err(e) ==> initialize_outcome(data@, owned_by_program, minimum) == Err::<(), FundraiserError>(e),
        r is Ok <==> initialize_outcome(data@, owned_by_program, minimum) is Ok,
        r matches Ok(f) ==> {
            &&& f.maker == *maker
            &&& f.mint_to_raise == *mint
            &&& f.amount_to_raise@ == data@.subrange(1, 9)
            &&& le_value(f.current_amount@) == 0
            &&& le_value(f.time_started@) == now as u64
            &&& f.duration == data@[9]
            &&& f.bump == data@[0]
        },
{
    let ix = InitializeData::parse(data)?;
    let amount = le_to_u64(&ix.amount_to_raise);
    assert(ix.amount_to_raise@.subrange(0, 8) =~= ix.amount_to_raise@);
    if amount <= minimum {
        return Err(FundraiserError::AmountTooSmall);
    }
    if owned_by_program {
        return Err(FundraiserError::IllegalOwner);
    }
    let started = u64_to_le(now as u64);
    let zero = u64_to_le(0);
    Ok(Fundraiser {
        maker: *maker,
        mint_to_raise: *mint,
        amount_to_raise: ix.amount_to_raise,
        current_amount: array_8(&zero),
        time_started: array_8(&started),
        duration: ix.duration,
        bump: ix.bump,
    })
}

/// Dispatches instruction data on its first byte, the instruction tag; the
/// rest is the instruction's arguments.
pub fn process_instruction(
    instruction_data: &[u8],
    maker: &[u8; 32],
    mint: &[u8; 32],
    owned_by_program: bool,
    minimum: u64,
    now: i64,
) -> (r: Result<Fundraiser, FundraiserError>)
    ensures
        instruction_data@.len() == 0 || instruction_data@[0] != 0 ==> r == Err::<Fundraiser, FundraiserError>(
            FundraiserError::InvalidInstructionData,
        ),
        instruction_data@.len() > 0 && instruction_data@[0] == 0 ==> (r is Ok <==> initialize_outcome(
            instruction_data@.drop_first(),
            owned_by_program,
            minimum,
        ) is Ok),
        r matches Ok(f) ==> f.maker == *maker && f.mint_to_raise == *mint && f.bump == instruction_data@[1],
{
    if instruction_data.len() == 0 {
        return Err(FundraiserError::InvalidInstructionData);
    }
    let (tag, rest) = instruction_data.split_at(1);
    assert(rest@ =~= instruction_data@.drop_first());
    match FundraiserInstructions::try_from(&tag[0])? {
        FundraiserInstructions::Initialize => process_initialize_instruction(maker, mint, owned_by_program, minimum, now, rest),
    }
}

} // verus!
