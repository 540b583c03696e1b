//! Machine-bound licenses on the Bitcoin blockchain.
//!
//! A license is a transaction that pays the developer at least the required
//! amount and that carries, in an `OP_RETURN` output, the SHA-256 digest of
//! the word `LICENSE` followed by the machine's identifier. The digest ties
//! the license to one machine: the same transaction proves nothing on
//! another.
//!
//! Fetching the transaction is the caller's business. A check is prepared
//! here, the caller looks the transaction up, and the verdict is reached here.

use vstd::prelude::*;
use vstd::string::*;
use bdk::bitcoin::address::NetworkUnchecked;
use bdk::bitcoin::blockdata::script::Instruction;
use bdk::bitcoin::{Address, Script, Txid};
use sha2::Digest;
use crate::bytes::{append_bytes, bytes_equal};
use crate::psk::hex_pair;

verus! {

/// One output of a transaction: the script that locks it and its value in
/// satoshis.
#[derive(Debug, Clone)]
pub struct TxOutput {
    pub script_pubkey: Vec<u8>,
    pub value: u64,
}

/// One instruction of a script.
#[derive(Debug, Clone)]
pub enum ScriptItem {
    /// A push of these bytes.
    Push(Vec<u8>),
    /// Any other opcode.
    Op(u8),
    /// The script breaks off here.
    Malformed,
}

/// One instruction of a script, as contracts see it.
pub enum ScriptToken {
    Push(Seq<u8>),
    Op(u8),
    Malformed,
}

impl View for ScriptItem {
    type V = ScriptToken;

    open spec fn view(&self) -> ScriptToken {
        match *self {
            ScriptItem::Push(data) => ScriptToken::Push(data@),
            ScriptItem::Op(code) => ScriptToken::Op(code),
            ScriptItem::Malformed => ScriptToken::Malformed,
        }
    }
}

/// What became of the search for a transaction.
#[derive(Debug, Clone)]
pub enum TxLookup {
    /// The transaction, by its outputs.
    Found(Vec<TxOutput>),
    /// The blockchain does not know the transaction.
    NotFound,
    /// The blockchain could not be asked; the text says why.
    Failed(String),
}

/// Why a license could not be checked.
#[derive(Debug, Clone)]
pub enum LicenseError {
    /// The developer's address is not a Bitcoin address.
    InvalidAddress,
    /// The transaction identifier is not 64 hex digits.
    InvalidTxid,
    /// The blockchain could not be asked; the text says why.
    Network(String),
}

/// The SHA-256 digest of a byte string.
pub uninterp spec fn sha256_digest(data: Seq<u8>) -> Seq<u8>;

/// The script that pays to a Bitcoin address, if the text is an address.
pub uninterp spec fn address_script(address: Seq<char>) -> Option<Seq<u8>>;

/// The instructions that a script is made of, in order.
pub uninterp spec fn script_tokens(script: Seq<u8>) -> Seq<ScriptToken>;

/// Whether a character is a hex digit, upper or lower case.
pub open spec fn is_hex_char(c: char) -> bool {
    ('0' <= c && c <= '9') || ('a' <= c && c <= 'f') || ('A' <= c && c <= 'F')
}

/// Whether a text names a transaction: 64 hex digits.
pub open spec fn is_txid_text(text: Seq<char>) -> bool {
    text.len() == 64 && forall|i: int| 0 <= i < text.len() ==> is_hex_char(#[trigger] text[i])
}

/// The 32 bytes of the transaction identifier that a text of 64 hex digits
/// names. An identifier is written with its last byte first: byte `i` is
/// spelled by the pair of digits that is `i` pairs from the end of the text.
pub open spec fn txid_bytes(text: Seq<char>) -> Seq<u8> {
    Seq::new(32, |i: int| hex_pair(text[62 - 2 * i] as u8, text[63 - 2 * i] as u8))
}

/// Whether a script starts with `OP_RETURN`.
pub open spec fn is_op_return(script: Seq<u8>) -> bool {
    script.len() > 0 && script[0] == 0x6a
}

/// The bytes of the word `LICENSE`.
pub open spec fn license_tag() -> Seq<u8> {
    seq![0x4c, 0x49, 0x43, 0x45, 0x4e, 0x53, 0x45]
}

/// The digest that binds a license to the machine `machine_id`, given by
/// the bytes of its identifier.
pub open spec fn binding_digest(machine_id: Seq<u8>) -> Seq<u8> {
    sha256_digest(license_tag() + machine_id)
}

/// Whether an output pays at least `required` satoshis to `target`.
pub open spec fn output_pays(output: TxOutput, target: Seq<u8>, required: u64) -> bool {
    output.script_pubkey@ == target && output.value >= required
}

/// Whether a list of instructions holds a push of exactly `data`.
pub open spec fn has_push(items: Seq<ScriptToken>, data: Seq<u8>) -> bool {
    exists|i: int| 0 <= i < items.len() && #[trigger] items[i] == ScriptToken::Push(data)
}

/// Whether an output is an `OP_RETURN` output that pushes exactly `binding`.
pub open spec fn output_binds(output: TxOutput, binding: Seq<u8>) -> bool {
    is_op_return(output.script_pubkey@) && has_push(script_tokens(output.script_pubkey@), binding)
}

/// Whether some output pays the developer.
pub open spec fn pays_developer(outputs: Seq<TxOutput>, target: Seq<u8>, required: u64) -> bool {
    exists|i: int| 0 <= i < outputs.len() && output_pays(#[trigger] outputs[i], target, required)
}

/// Whether some output carries the binding digest.
pub open spec fn carries_binding(outputs: Seq<TxOutput>, binding: Seq<u8>) -> bool {
    exists|i: int| 0 <= i < outputs.len() && output_binds(#[trigger] outputs[i], binding)
}

/// Whether a transaction with these outputs is a license: it pays the
/// developer and it carries the binding digest. Both are needed.
pub open spec fn is_license(
    outputs: Seq<TxOutput>,
    target: Seq<u8>,
    required: u64,
    binding: Seq<u8>,
) -> bool {
    pays_developer(outputs, target, required) && carries_binding(outputs, binding)
}

/// Calls `Sha256::digest`. The result is the SHA-256 digest of `data`, which
/// is 32 bytes long.
#[verifier::external_body]
fn sha256(data: &[u8]) -> (digest: Vec<u8>)
    ensures
        digest@ == sha256_digest(data@),
        digest@.len() == 32,
{
    sha2::Sha256::digest(data).to_vec()
}

/// Calls `Address::from_str` and, on an address, `script_pubkey`, without
/// regard to the network the address is for. The result is the script that
/// pays to the address, or `None` for a text that is no address.
#[verifier::external_body]
fn address_script_pubkey(address: &str) -> (script: Option<Vec<u8>>)
    ensures
        match script {
            Some(bytes) => address_script(address@) == Some(bytes@),
            None => address_script(address@).is_none(),
        },
{
    match address.parse::<Address<NetworkUnchecked>>() {
        Ok(parsed) => Some(parsed.assume_checked().script_pubkey().into_bytes()),
        Err(_) => None,
    }
}

/// Calls `Txid::from_str` and hands out the identifier's bytes. The parser
/// accepts exactly the texts of 64 hex digits, and reads the digits pair by
/// pair from the end of the text.
#[verifier::external_body]
fn parse_txid(text: &str) -> (txid: Option<[u8; 32]>)
    ensures
        match txid {
            Some(bytes) => is_txid_text(text@) && bytes@ == txid_bytes(text@),
            None => !is_txid_text(text@),
        },
{
    match text.parse::<Txid>() {
        Ok(txid) => Some(bdk::bitcoin::hashes::Hash::to_byte_array(txid)),
        Err(_) => None,
    }
}

/// Calls `Script::is_op_return`, which looks at the first byte of the script.
#[verifier::external_body]
fn script_is_op_return(script: &[u8]) -> (res: bool)
    ensures
        res == is_op_return(script@),
{
    Script::from_bytes(script).is_op_return()
}

/// Calls `Script::instructions` and hands out what the iterator yields, one
/// item for each: a push with its bytes, another opcode with its byte, or the
/// error that ends a script that breaks off.
#[verifier::external_body]
fn script_instructions(script: &[u8]) -> (items: Vec<ScriptItem>)
    ensures
        items@.map_values(|item: ScriptItem| item@) == script_tokens(script@),
{
    let mut items = Vec::new();
    for instruction in Script::from_bytes(script).instructions() {
        items.push(
            match instruction {
                Ok(Instruction::PushBytes(data)) => ScriptItem::Push(data.as_bytes().to_vec()),
                Ok(Instruction::Op(code)) => ScriptItem::Op(code.to_u8()),
                Err(_) => ScriptItem::Malformed,
            },
        );
    }
    items
}

/// Whether a list of instructions holds a push of exactly `data`.
pub fn holds_push(items: &Vec<ScriptItem>, data: &[u8]) -> (found: bool)
    ensures
        found == has_push(items@.map_values(|item: ScriptItem| item@), data@),
{
    let ghost tokens = items@.map_values(|item: ScriptItem| item@);
    let mut i: usize = 0;
    while i < items.len()
        invariant
            i <= items@.len(),
            tokens == items@.map_values(|item: ScriptItem| item@),
            forall|k: int| 0 <= k < i ==> tokens[k] != ScriptToken::Push(data@),
        decreases items@.len() - i,
    {
        match &items[i] {
            ScriptItem::Push(bytes) => {
                if bytes_equal(bytes.as_slice(), data) {
                    assert(tokens[i as int] == ScriptToken::Push(data@));
                    return true;
                }
                assert(tokens[i as int] != ScriptToken::Push(data@));
            },
            _ => {
                assert(tokens[i as int] != ScriptToken::Push(data@));
            },
        }
        i = i + 1;
    }
    false
}

/// The digest that binds a license to this machine: SHA-256 of `LICENSE`
/// followed by the machine's identifier.
pub fn binding_hash(machine_id: &str) -> (digest: Vec<u8>)
    ensures
        digest@ == binding_digest(machine_id.spec_bytes()),
        digest@.len() == 32,
{
    let mut message: Vec<u8> = Vec::new();
    message.push(0x4c);
    message.push(0x49);
    message.push(0x43);
    message.push(0x45);
    message.push(0x4e);
    message.push(0x53);
    message.push(0x45);
    assert(message@ =~= license_tag());
    append_bytes(&mut message, machine_id.as_bytes());
    sha256(message.as_slice())
}

/// Whether an output is an `OP_RETURN` output that pushes exactly `binding`.
pub fn binds(output: &TxOutput, binding: &[u8]) -> (res: bool)
    ensures
        res == output_binds(*output, binding@),
{
    if script_is_op_return(output.script_pubkey.as_slice()) {
        let items = script_instructions(output.script_pubkey.as_slice());
        holds_push(&items, binding)
    } else {
        false
    }
}

/// Audits the outputs of a transaction: whether one of them pays at least
/// `required_sats` to `target_script`, and one of them carries `binding`.
pub fn audit_outputs(
    outputs: &Vec<TxOutput>,
    target_script: &[u8],
    required_sats: u64,
    binding: &[u8],
) -> (valid: bool)
    ensures
        valid == is_license(outputs@, target_script@, required_sats, binding@),
{
    let mut paid_dev = false;
    let mut found_metadata = false;
    let mut i: usize = 0;
    while i < outputs.len()
        invariant
            i <= outputs@.len(),
            paid_dev == pays_developer(outputs@.take(i as int), target_script@, required_sats),
            found_metadata == carries_binding(outputs@.take(i as int), binding@),
        decreases outputs@.len() - i,
    {
        let output = &outputs[i];
        let ghost before = outputs@.take(i as int);
        let ghost after = outputs@.take(i + 1);
        let pays = bytes_equal(output.script_pubkey.as_slice(), target_script) && output.value
            >= required_sats;
        let carries = binds(output, binding);
        proof {
            assert(after.drop_last() == before);
            assert(after.last() == outputs@[i as int]);
            assert(pays_developer(after, target_script@, required_sats) == (pays_developer(
                before,
                target_script@,
                required_sats,
            ) || pays)) by {
                if pays_developer(before, target_script@, required_sats) {
                    let k = choose|k: int|
                        0 <= k < before.len() && output_pays(
                            #[trigger] before[k],
                            target_script@,
                            required_sats,
                        );
                    assert(after[k] == before[k]);
                }
                if pays {
                    assert(output_pays(after[i as int], target_script@, required_sats));
                }
                if pays_developer(after, target_script@, required_sats) {
                    let k = choose|k: int|
                        0 <= k < after.len() && output_pays(
                            #[trigger] after[k],
                            target_script@,
                            required_sats,
                        );
                    if k < i {
                        assert(before[k] == after[k]);
                    }
                }
            }
            assert(carries_binding(after, binding@) == (carries_binding(before, binding@)
                || carries)) by {
                if carries_binding(before, binding@) {
                    let k = choose|k: int|
                        0 <= k < before.len() && output_binds(#[trigger] before[k], binding@);
                    assert(after[k] == before[k]);
                }
                if carries {
                    assert(output_binds(after[i as int], binding@));
                }
                if carries_binding(after, binding@) {
                    let k = choose|k: int|
                        0 <= k < after.len() && output_binds(#[trigger] after[k], binding@);
                    if k < i {
                        assert(before[k] == after[k]);
                    }
                }
            }
        }
        if pays {
            paid_dev = true;
        }
        if carries {
            found_metadata = true;
        }
        i = i + 1;
    }
    assert(outputs@.take(outputs@.len() as int) == outputs@);
    paid_dev && found_metadata
}

/// A license check that is ready for the blockchain: which transaction to
/// look up, and what its outputs are held against.
#[derive(Debug, Clone)]
pub struct LicenseQuery {
    /// The transaction to look up, by the bytes of its identifier.
    pub txid: [u8; 32],
    /// The script that pays the developer.
    pub target_script: Vec<u8>,
    /// The digest that binds the license to the machine.
    pub binding: Vec<u8>,
}

/// What preparing a check yields for these inputs: the first fault decides,
/// the transaction identifier before the address.
pub open spec fn prepared(
    res: Result<LicenseQuery, LicenseError>,
    txid_text: Seq<char>,
    address: Seq<char>,
    machine_id: Seq<u8>,
) -> bool {
    if !is_txid_text(txid_text) {
        res matches Err(LicenseError::InvalidTxid)
    } else {
        match address_script(address) {
            None => res matches Err(LicenseError::InvalidAddress),
            Some(script) => {
                &&& res matches Ok(query)
                &&& query.txid@ == txid_bytes(txid_text)
                &&& query.target_script@ == script
                &&& query.binding@ == binding_digest(machine_id)
            },
        }
    }
}

/// The verdict for a transaction that was looked up: an unknown transaction
/// is no license, a known one is judged by its outputs, and a failed lookup
/// is an error that carries the reason behind `failure_prefix`.
pub open spec fn verdict(
    res: Result<bool, LicenseError>,
    lookup: TxLookup,
    target: Seq<u8>,
    required: u64,
    binding: Seq<u8>,
    failure_prefix: Seq<char>,
) -> bool {
    match lookup {
        TxLookup::Found(outputs) => res matches Ok(valid) && valid == is_license(
            outputs@,
            target,
            required,
            binding,
        ),
        TxLookup::NotFound => res matches Ok(valid) && !valid,
        TxLookup::Failed(reason) => res matches Err(LicenseError::Network(text)) && text@
            == failure_prefix + reason@,
    }
}

fn prepare_query(txid_text: &str, address: &str, machine_id: &str) -> (res: Result<
    LicenseQuery,
    LicenseError,
>)
    ensures
        prepared(res, txid_text@, address@, machine_id.spec_bytes()),
{
    let txid = match parse_txid(txid_text) {
        Some(txid) => txid,
        None => {
            return Err(LicenseError::InvalidTxid);
        },
    };
    let target_script = match address_script_pubkey(address) {
        Some(script) => script,
        None => {
            return Err(LicenseError::InvalidAddress);
        },
    };
    let binding = binding_hash(machine_id);
    Ok(LicenseQuery { txid, target_script, binding })
}

/// Checks licenses against one developer address and one price.
#[derive(Debug, Clone)]
pub struct LicenseVerifier {
    developer_addr: String,
    required_sats: u64,
}

impl LicenseVerifier {
    /// The address that a license pays to.
    pub closed spec fn address(&self) -> Seq<char> {
        self.developer_addr@
    }

    /// The least amount, in satoshis, that a license pays.
    pub closed spec fn price(&self) -> u64 {
        self.required_sats
    }

    /// Sets up a verifier. The address is checked at once: a text that is no
    /// Bitcoin address is turned down.
    pub fn new(developer_addr: &str, required_sats: u64) -> (res: Result<Self, LicenseError>)
        ensures
            match res {
                Ok(verifier) => {
                    &&& address_script(developer_addr@).is_some()
                    &&& verifier.address() == developer_addr@
                    &&& verifier.price() == required_sats
                },
                Err(e) => address_script(developer_addr@).is_none() && e is InvalidAddress,
            },
    {
        match address_script_pubkey(developer_addr) {
            Some(_) => Ok(
                LicenseVerifier { developer_addr: developer_addr.to_owned(), required_sats },
            ),
            None => Err(LicenseError::InvalidAddress),
        }
    }

    /// The address that a license pays to.
    pub fn developer_addr(&self) -> (address: &String)
        ensures
            address@ == self.address(),
    {
        &self.developer_addr
    }

    /// The least amount, in satoshis, that a license pays.
    pub fn required_sats(&self) -> (sats: u64)
        ensures
            sats == self.price(),
    {
        self.required_sats
    }

    /// Prepares the check of the transaction `txid_str` as a license for the
    /// machine `machine_id`: the transaction to look up, the script that pays
    /// the developer, and the digest that the transaction must carry.
    pub fn prepare(&self, txid_str: &str, machine_id: &str) -> (res: Result<
        LicenseQuery,
        LicenseError,
    >)
        ensures
            prepared(res, txid_str@, self.address(), machine_id.spec_bytes()),
    {
        prepare_query(txid_str, self.developer_addr.as_str(), machine_id)
    }

    /// Reaches the verdict on a prepared check, once the transaction has
    /// been looked up. A license is valid when the transaction pays the
    /// developer at least the price and carries the machine's binding digest.
    pub fn verify_license_sync(&self, query: &LicenseQuery, lookup: TxLookup) -> (res: Result<
        bool,
        LicenseError,
    >)
        ensures
            verdict(
                res,
                lookup,
                query.target_script@,
                self.price(),
                query.binding@,
                "Network error: "@,
            ),
    {
        match lookup {
            TxLookup::Found(outputs) => Ok(
                audit_outputs(
                    &outputs,
                    query.target_script.as_slice(),
                    self.required_sats,
                    query.binding.as_slice(),
                ),
            ),
            TxLookup::NotFound => Ok(false),
            TxLookup::Failed(reason) => Err(
                LicenseError::Network(String::from_str("Network error: ").concat(reason.as_str())),
            ),
        }
    }
}

/// Checks licenses for an address and a price that are given with each check.
#[derive(Debug, Clone)]
pub struct OldLicenseVerifier {}

impl OldLicenseVerifier {
    /// Sets up a verifier.
    pub fn new() -> (res: Result<Self, LicenseError>)
        ensures
            res.is_ok(),
    {
        Ok(OldLicenseVerifier {  })
    }

    /// Reads a transaction identifier, the first step of a check.
    pub fn prepare(&self, txid_str: &str) -> (res: Result<[u8; 32], LicenseError>)
        ensures
            match res {
                Ok(txid) => is_txid_text(txid_str@) && txid@ == txid_bytes(txid_str@),
                Err(e) => !is_txid_text(txid_str@) && e is InvalidTxid,
            },
    {
        match parse_txid(txid_str) {
            Some(txid) => Ok(txid),
            None => Err(LicenseError::InvalidTxid),
        }
    }

    /// Reaches the verdict on a transaction that has been looked up. A failed
    /// lookup is an error and an unknown transaction is no license, whatever
    /// the address; for a known transaction the address must be one.
    pub fn verify_license(
        &self,
        lookup: TxLookup,
        machine_id: &str,
        developer_addr: &str,
        required_sats: u64,
    ) -> (res: Result<bool, LicenseError>)
        ensures
            match lookup {
                TxLookup::Found(outputs) => match address_script(developer_addr@) {
                    Some(script) => res matches Ok(valid) && valid == is_license(
                        outputs@,
                        script,
                        required_sats,
                        binding_digest(machine_id.spec_bytes()),
                    ),
                    None => res matches Err(LicenseError::InvalidAddress),
                },
                TxLookup::NotFound => res matches Ok(valid) && !valid,
                TxLookup::Failed(reason) => res matches Err(LicenseError::Network(text)) && text
                    == reason,
            },
    {
        match lookup {
            TxLookup::Found(outputs) => {
                let target_script = match address_script_pubkey(developer_addr) {
                    Some(script) => script,
                    None => {
                        return Err(LicenseError::InvalidAddress);
                    },
                };
                let binding = binding_hash(machine_id);
                Ok(
                    audit_outputs(
                        &outputs,
                        target_script.as_slice(),
                        required_sats,
                        binding.as_slice(),
                    ),
                )
            },
            TxLookup::NotFound => Ok(false),
            TxLookup::Failed(reason) => Err(LicenseError::Network(reason)),
        }
    }
}

impl LicenseError {
    /// What the error says.
    pub open spec fn text(&self) -> Seq<char> {
        match *self {
            LicenseError::InvalidAddress => "Invalid Developer Address format"@,
            LicenseError::InvalidTxid => "Invalid TxID"@,
            LicenseError::Network(reason) => reason@,
        }
    }

    /// What the error says, for a log or a reply.
    pub fn message(&self) -> (text: String)
        ensures
            text@ == self.text(),
    {
        match self {
            LicenseError::InvalidAddress => String::from_str("Invalid Developer Address format"),
            LicenseError::InvalidTxid => String::from_str("Invalid TxID"),
            LicenseError::Network(reason) => reason.clone(),
        }
    }
}

/// A license needs both the payment and the binding: a transaction that
/// lacks either is none, and one that has both is one. Outputs added to a
/// license leave it a license.
pub proof fn law_license_needs_payment_and_binding(
    outputs: Seq<TxOutput>,
    more: Seq<TxOutput>,
    target: Seq<u8>,
    required: u64,
    binding: Seq<u8>,
)
    ensures
        is_license(outputs, target, required, binding) <==> pays_developer(
            outputs,
            target,
            required,
        ) && carries_binding(outputs, binding),
        !is_license(Seq::<TxOutput>::empty(), target, required, binding),
        is_license(outputs, target, required, binding) ==> is_license(
            outputs + more,
            target,
            required,
            binding,
        ),
{
    if is_license(outputs, target, required, binding) {
        let k = choose|k: int|
            0 <= k < outputs.len() && output_pays(#[trigger] outputs[k], target, required);
        assert((outputs + more)[k] == outputs[k]);
        let j = choose|j: int| 0 <= j < outputs.len() && output_binds(#[trigger] outputs[j], binding);
        assert((outputs + more)[j] == outputs[j]);
    }
}

} // verus!
