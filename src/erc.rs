use vstd::prelude::*;
use crate::text::{contains_seq, contains_str};

verus! {

/// Opaque JSON value carried through a signature lookup response.
#[verifier::external_type_specification]
#[verifier::external_body]
pub struct ExValue(serde_json::Value);

/// A 20-byte contract or account address.
#[derive(Debug)]
pub struct Address {
    pub bytes: [u8; 20],
}

impl Address {
    pub open spec fn view(&self) -> Seq<u8> {
        self.bytes@
    }

    /// Byte-wise equality of two addresses.
    pub fn same(&self, other: &Address) -> (r: bool)
        ensures
            r == (self.view() == other.view()),
    {
        let mut i: usize = 0;
        while i < 20
            invariant
                0 <= i <= 20,
                self.bytes@.len() == 20,
                other.bytes@.len() == 20,
                forall|j: int| 0 <= j < i ==> self.bytes@[j] == other.bytes@[j],
            decreases 20 - i,
        {
            if self.bytes[i] != other.bytes[i] {
                return false;
            }
            i = i + 1;
        }
        assert(self.bytes@ =~= other.bytes@);
        true
    }

    pub fn copy(&self) -> (r: Address)
        ensures
            r.view() == self.view(),
    {
        Address { bytes: self.bytes }
    }
}

/// A transaction as seen by the classifier: `to` is `None` for a contract
/// creation, `input` is the call data.
#[derive(Debug)]
pub struct Transaction {
    pub from: Address,
    pub to: Option<Address>,
    pub input: Vec<u8>,
}

/// One entry of a function-signature lookup.
#[derive(Debug)]
pub struct EthFunc {
    pub id: i64,
    pub created_at: String,
    pub text_signature: String,
    pub hex_signature: String,
    pub bytes_signature: String,
}

/// A function-signature lookup response.
#[derive(Debug)]
pub struct Root {
    pub count: i64,
    pub next: serde_json::Value,
    pub previous: serde_json::Value,
    pub results: Vec<EthFunc>,
}

/// Outcome of classifying a transaction.
#[derive(Debug)]
pub enum MintClass {
    MintLike,
    NotMintLike,
    Indeterminate,
}

/// A transaction can be a mint call only if it targets an existing contract
/// with call data that holds a whole 4-byte selector.
pub open spec fn is_candidate(tx: &Transaction) -> bool {
    tx.to is Some && tx.input@.len() >= 4
}

pub open spec fn hex_digit(d: int) -> char {
    seq!['0', '1', '2', '3', '4', '5', '6', '7', '8', '9', 'a', 'b', 'c', 'd', 'e', 'f'][d]
}

/// Two lowercase hex digits of a byte, high nibble first.
pub open spec fn hex_pair(b: u8) -> Seq<char> {
    seq![hex_digit(b as int / 16), hex_digit(b as int % 16)]
}

/// Lowercase hex of a byte sequence, two digits per byte.
pub open spec fn hex_of(bs: Seq<u8>) -> Seq<char>
    decreases bs.len(),
{
    if bs.len() == 0 {
        Seq::empty()
    } else {
        hex_of(bs.drop_last()) + hex_pair(bs.last())
    }
}

/// The selector of call data: `0x` and the hex of its first four bytes.
pub open spec fn selector_spec(input: Seq<u8>) -> Seq<char> {
    seq!['0', 'x'] + hex_of(input.subrange(0, 4))
}

pub open spec fn lookup_base() -> Seq<char> {
    "https://www.4byte.directory/api/v1/signatures/?format=json&hex_signature="@
}

/// Address of the signature lookup for a selector.
pub open spec fn lookup_url_spec(selector: Seq<char>) -> Seq<char> {
    lookup_base() + selector
}

/// A human-readable signature looks like a mint if it contains `NFT` or `mint`.
pub open spec fn is_mint_text(t: Seq<char>) -> bool {
    contains_seq(t, "NFT"@) || contains_seq(t, "mint"@)
}

/// A lookup response names a mint if it reports matches and at least one of
/// its signatures looks like a mint.
pub open spec fn response_is_mint(root: &Root) -> bool {
    root.count != 0 && exists|i: int|
        0 <= i < root.results@.len() && is_mint_text(#[trigger] root.results@[i].text_signature@)
}

/// The lowercase hex digit of a value below 16.
fn hex_digit_str(d: u8) -> (r: &'static str)
    requires
        d < 16,
    ensures
        r@ == seq![hex_digit(d as int)],
{
    match d {
        0 => {
            proof { reveal_strlit("0"); }
            "0"
        },
        1 => {
            proof { reveal_strlit("1"); }
            "1"
        },
        2 => {
            proof { reveal_strlit("2"); }
            "2"
        },
        3 => {
            proof { reveal_strlit("3"); }
            "3"
        },
        4 => {
            proof { reveal_strlit("4"); }
            "4"
        },
        5 => {
            proof { reveal_strlit("5"); }
            "5"
        },
        6 => {
            proof { reveal_strlit("6"); }
            "6"
        },
        7 => {
            proof { reveal_strlit("7"); }
            "7"
        },
        8 => {
            proof { reveal_strlit("8"); }
            "8"
        },
        9 => {
            proof { reveal_strlit("9"); }
            "9"
        },
        10 => {
            proof { reveal_strlit("a"); }
            "a"
        },
        11 => {
            proof { reveal_strlit("b"); }
            "b"
        },
        12 => {
            proof { reveal_strlit("c"); }
            "c"
        },
        13 => {
            proof { reveal_strlit("d"); }
            "d"
        },
        14 => {
            proof { reveal_strlit("e"); }
            "e"
        },
        _ => {
            proof { reveal_strlit("f"); }
            "f"
        },
    }
}

/// A byte as two lowercase hex digits, high nibble first.
pub(crate) fn hex_byte(b: u8) -> (r: String)
    ensures
        r@ == hex_pair(b),
{
    let hi = hex_digit_str(b / 16);
    let lo = hex_digit_str(b % 16);
    let r = hi.to_owned().concat(lo);
    assert(r@ =~= hex_pair(b));
    r
}

/// Whether the transaction is a structural mint candidate.
#[allow(non_snake_case)]
pub fn isContract(tx: &Transaction) -> (r: bool)
    ensures
        r == is_candidate(tx),
{
    tx.to.is_some() && tx.input.len() >= 4
}

/// `0x` followed by the lowercase hex of the first four bytes of the call data.
pub fn selector(input: &Vec<u8>) -> (r: String)
    requires
        input@.len() >= 4,
    ensures
        r@ == selector_spec(input@),
{
    proof { reveal_strlit("0x"); }
    let mut sig = "0x".to_owned();
    let mut i: usize = 0;
    while i < 4
        invariant
            0 <= i <= 4,
            input@.len() >= 4,
            sig@ == seq!['0', 'x'] + hex_of(input@.subrange(0, i as int)),
        decreases 4 - i,
    {
        let pair = hex_byte(input[i]);
        proof {
            assert(input@.subrange(0, i + 1).drop_last() =~= input@.subrange(0, i as int));
        }
        sig = sig.concat(pair.as_str());
        proof {
            assert(sig@ =~= seq!['0', 'x'] + hex_of(input@.subrange(0, i + 1)));
        }
        i = i + 1;
    }
    sig
}

/// The signature lookup to make for a transaction: `None`, and no lookup at
/// all, when the transaction is not a structural candidate.
pub fn mint_lookup_url(tx: &Transaction) -> (r: Option<String>)
    ensures
        r is None <==> !is_candidate(tx),
        r is Some ==> r->0@ == lookup_url_spec(selector_spec(tx.input@)),
{
    if !isContract(tx) {
        return None;
    }
    let sel = selector(&tx.input);
    let base = "https://www.4byte.directory/api/v1/signatures/?format=json&hex_signature=".to_owned();
    Some(base.concat(sel.as_str()))
}

/// Whether a human-readable signature contains `NFT` or `mint`.
pub fn is_mint_signature(text: &str) -> (r: bool)
    ensures
        r == is_mint_text(text@),
{
    contains_str(text, "NFT") || contains_str(text, "mint")
}

/// Whether a lookup response names a mint-like function.
pub fn is_mint_response(root: &Root) -> (r: bool)
    ensures
        r == response_is_mint(root),
{
    if root.count == 0 {
        return false;
    }
    let mut i: usize = 0;
    while i < root.results.len()
        invariant
            0 <= i <= root.results@.len(),
            root.count != 0,
            forall|j: int| 0 <= j < i ==> !is_mint_text(#[trigger] root.results@[j].text_signature@),
        decreases root.results@.len() - i,
    {
        if is_mint_signature(root.results[i].text_signature.as_str()) {
            assert(is_mint_text(root.results@[i as int].text_signature@));
            return true;
        }
        i = i + 1;
    }
    false
}

/// Classifies a transaction given the outcome of its signature lookup:
/// `None` stands for a lookup that failed or could not be read.
pub fn classify(tx: &Transaction, response: Option<&Root>) -> (r: MintClass)
    ensures
        !is_candidate(tx) ==> r is NotMintLike,
        is_candidate(tx) && response is None ==> r is Indeterminate,
        is_candidate(tx) && response is Some ==> (r is MintLike <==> response_is_mint(response->0)),
        is_candidate(tx) && response is Some ==> !(r is Indeterminate),
{
    if !isContract(tx) {
        return MintClass::NotMintLike;
    }
    match response {
        None => MintClass::Indeterminate,
        Some(root) => if is_mint_response(root) {
            MintClass::MintLike
        } else {
            MintClass::NotMintLike
        },
    }
}

/// Whether a transaction is a mint call, given the outcome of its signature
/// lookup; an inconclusive lookup counts as no mint.
pub fn is_mint_function(tx: &Transaction, response: Option<&Root>) -> (r: bool)
    ensures
        r == (is_candidate(tx) && response is Some && response_is_mint(response->0)),
{
    match classify(tx, response) {
        MintClass::MintLike => true,
        _ => false,
    }
}

/// A transaction that is not a structural candidate is never a mint,
/// whatever a lookup would have said, and no lookup is asked for it.
pub proof fn lemma_non_candidate_never_mint(tx: &Transaction, response: Option<&Root>)
    requires
        tx.to is None || tx.input@.len() < 4,
    ensures
        !is_candidate(tx),
        !(is_candidate(tx) && response is Some && response_is_mint(response->0)),
{
}

} // verus!
