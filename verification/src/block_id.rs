//! Block numbers, tags and identifiers as the RPC methods take them.
use crate::primitives::Word;
use alloy_eips::BlockNumberOrTag as AlloyTag;
use vstd::prelude::*;

verus! {

/// A block number, or a tag that stands for one.
#[derive(Clone, Copy, Debug, PartialEq, Eq, Structural)]
pub enum BlockNumberOrTag {
    /// The most recently sealed block.
    Latest,
    /// The last finalized block.
    Finalized,
    /// The safe head.
    Safe,
    /// The genesis block.
    Earliest,
    /// The block under construction.
    Pending,
    /// The canonical block of that number.
    Number(u64),
}

/// A string that is no block number or tag, with the message to report.
#[derive(Debug)]
pub struct ParseBlockNumberError {
    pub message: String,
}

impl BlockNumberOrTag {
    /// Whether this is the `pending` tag.
    pub fn is_pending(&self) -> (r: bool)
        ensures
            r == (*self == BlockNumberOrTag::Pending),
    {
        matches!(self, BlockNumberOrTag::Pending)
    }
}

/// What `c` becomes in lower case, for an ASCII character.
pub open spec fn ascii_lower_char(c: char) -> char {
    if 'A' <= c && c <= 'Z' {
        (c as u32 + 32) as char
    } else {
        c
    }
}

/// An ASCII string in lower case.
pub open spec fn ascii_lower(s: Seq<char>) -> Seq<char> {
    s.map_values(|c: char| ascii_lower_char(c))
}

/// Whether every character of the string is ASCII.
pub open spec fn all_ascii(s: Seq<char>) -> bool {
    forall|i: int| 0 <= i < s.len() ==> (#[trigger] s[i] as u32) < 128
}

/// Whether two strings hold the same characters.
pub(crate) fn same_text(a: &str, b: &str) -> (r: bool)
    ensures
        r == (a@ == b@),
{
    a.to_owned() == b.to_owned()
}

/// What a hexadecimal digit is worth, in either case; `None` for any other character.
pub open spec fn hex_digit(c: char) -> Option<nat> {
    if '0' <= c && c <= '9' {
        Some((c as int - '0' as int) as nat)
    } else if 'a' <= c && c <= 'f' {
        Some((c as int - 'a' as int + 10) as nat)
    } else if 'A' <= c && c <= 'F' {
        Some((c as int - 'A' as int + 10) as nat)
    } else {
        None
    }
}

/// The number that a string of hexadecimal digits denotes, most significant digit first.
pub open spec fn hex_value(s: Seq<char>) -> nat
    decreases s.len(),
{
    if s.len() == 0 {
        0
    } else {
        hex_value(s.drop_last()) * 16 + hex_digit(s.last()).unwrap_or(0)
    }
}

/// Whether every character is a hexadecimal digit.
pub open spec fn all_hex_digits(s: Seq<char>) -> bool {
    forall|i: int| 0 <= i < s.len() ==> hex_digit(#[trigger] s[i]) is Some
}

/// The 64-bit number that `s` denotes in hexadecimal: an optional `+`, then at least one digit and
/// nothing else, with a value that fits.
pub open spec fn hex_u64(s: Seq<char>) -> Option<u64> {
    let digits = if s.len() > 0 && s[0] == '+' {
        s.skip(1)
    } else {
        s
    };
    if digits.len() > 0 && all_hex_digits(digits) && hex_value(digits) <= u64::MAX {
        Some(hex_value(digits) as u64)
    } else {
        None
    }
}

/// Whether `s` starts with the hexadecimal prefix `0x`.
pub open spec fn has_hex_prefix(s: Seq<char>) -> bool {
    s.len() >= 2 && s[0] == '0' && s[1] == 'x'
}

/// The block that a lower-case ASCII string names: one of the five tags, or the number behind the
/// hexadecimal prefix.
pub open spec fn lower_case_reading(s: Seq<char>) -> Option<BlockNumberOrTag> {
    if s == "latest"@ {
        Some(BlockNumberOrTag::Latest)
    } else if s == "finalized"@ {
        Some(BlockNumberOrTag::Finalized)
    } else if s == "safe"@ {
        Some(BlockNumberOrTag::Safe)
    } else if s == "earliest"@ {
        Some(BlockNumberOrTag::Earliest)
    } else if s == "pending"@ {
        Some(BlockNumberOrTag::Pending)
    } else if has_hex_prefix(s) {
        match hex_u64(s.skip(2)) {
            Some(number) => Some(BlockNumberOrTag::Number(number)),
            None => None,
        }
    } else {
        None
    }
}

/// What the parser of `alloy_eips` makes of a string: the block that it names, or the message of
/// the error.
pub uninterp spec fn alloy_reading(s: Seq<char>) -> Result<BlockNumberOrTag, Seq<char>>;

/// The result of a parse, with the error taken by the characters of its message.
pub open spec fn parsed(r: Result<BlockNumberOrTag, ParseBlockNumberError>) -> Result<
    BlockNumberOrTag,
    Seq<char>,
> {
    match r {
        Ok(tag) => Ok(tag),
        Err(error) => Err(error.message@),
    }
}

/// Whether `r` is how an ASCII string reads: the block that its lower-case form names, or an error,
/// whose message is fixed where even the prefix is missing.
pub open spec fn follows_ascii_reading(
    s: Seq<char>,
    r: Result<BlockNumberOrTag, Seq<char>>,
) -> bool {
    match lower_case_reading(ascii_lower(s)) {
        Some(tag) => r == Ok::<BlockNumberOrTag, Seq<char>>(tag),
        None => r matches Err(message) && (!has_hex_prefix(ascii_lower(s)) ==> message
            == "hex string without 0x prefix"@),
    }
}

/// Reads a block number or tag with the `FromStr` impl of `alloy_eips::BlockNumberOrTag`.
///
/// The contract names the result for every string, and says what it is for an ASCII string: the
/// reading takes no account of case; the five tags stand for themselves; anything else has to be
/// `0x` and digits that `u64::from_str_radix` accepts in base sixteen, and an error comes for the
/// rest. For a string with other characters the contract says no more than that the result
/// depends on the string alone. The message for digits that do not read is that of std and is not
/// spelled out.
#[verifier::external_body]
fn alloy_parse(s: &str) -> (r: Result<BlockNumberOrTag, ParseBlockNumberError>)
    ensures
        parsed(r) == alloy_reading(s@),
        all_ascii(s@) ==> follows_ascii_reading(s@, parsed(r)),
{
    match s.parse::<AlloyTag>() {
        Ok(AlloyTag::Latest) => Ok(BlockNumberOrTag::Latest),
        Ok(AlloyTag::Finalized) => Ok(BlockNumberOrTag::Finalized),
        Ok(AlloyTag::Safe) => Ok(BlockNumberOrTag::Safe),
        Ok(AlloyTag::Earliest) => Ok(BlockNumberOrTag::Earliest),
        Ok(AlloyTag::Pending) => Ok(BlockNumberOrTag::Pending),
        Ok(AlloyTag::Number(number)) => Ok(BlockNumberOrTag::Number(number)),
        Err(error) => Err(ParseBlockNumberError { message: error.to_string() }),
    }
}

/// A block hash, and whether the block has to be canonical.
#[derive(Clone, Copy, Debug, PartialEq, Eq)]
pub struct RpcBlockHash {
    pub block_hash: Word,
    pub require_canonical: Option<bool>,
}

/// The block that a request is about.
#[derive(Clone, Copy, Debug, PartialEq, Eq)]
pub enum BlockId {
    /// A block by its hash.
    Hash(RpcBlockHash),
    /// A block by its number or tag.
    Number(BlockNumberOrTag),
}

impl BlockId {
    /// Whether this is the `pending` tag.
    pub open spec fn names_pending(self) -> bool {
        self == BlockId::Number(BlockNumberOrTag::Pending)
    }

    /// Whether this is the `pending` tag.
    pub fn is_pending(&self) -> (r: bool)
        ensures
            r == self.names_pending(),
    {
        matches!(self, BlockId::Number(BlockNumberOrTag::Pending))
    }
}

impl Default for BlockId {
    /// The latest block.
    fn default() -> (r: BlockId)
        ensures
            r == BlockId::Number(BlockNumberOrTag::Latest),
    {
        BlockId::Number(BlockNumberOrTag::Latest)
    }
}

/// The block that a request is about when it may leave the block out: the latest by default.
pub open spec fn requested_block(block_number: Option<BlockId>) -> BlockId {
    match block_number {
        Some(block_id) => block_id,
        None => BlockId::Number(BlockNumberOrTag::Latest),
    }
}

/// The block that a request is about when it may leave the block out: the latest by default.
pub fn block_id_or_default(block_number: Option<BlockId>) -> (r: BlockId)
    ensures
        r == requested_block(block_number),
{
    match block_number {
        Some(block_id) => block_id,
        None => BlockId::default(),
    }
}

/// The result of reading a request's block, with the error taken by the characters of its message.
pub open spec fn ext_reading(r: Result<BlockNumberOrTagExt, ParseBlockNumberError>) -> Result<
    BlockNumberOrTag,
    Seq<char>,
> {
    match r {
        Ok(ext) => Ok(ext.tag()),
        Err(error) => Err(error.message@),
    }
}

/// A block number or tag that also takes `unsafe` for `latest`.
///
/// A conductor asks for the unsafe head before it starts a sequencer. The execution layer keeps
/// that state under `latest`, the most recently sealed block, so the name is mapped before the
/// lookup sees it.
#[derive(Clone, Copy, Debug)]
pub struct BlockNumberOrTagExt(BlockNumberOrTag);

impl BlockNumberOrTagExt {
    /// The number or tag that the lookup sees.
    pub closed spec fn tag(self) -> BlockNumberOrTag {
        self.0
    }

    /// Wraps a number or tag.
    pub fn new(tag: BlockNumberOrTag) -> (r: BlockNumberOrTagExt)
        ensures
            r.tag() == tag,
    {
        BlockNumberOrTagExt(tag)
    }

    /// Reads the string that a request gives for a block.
    ///
    /// `unsafe`, in exactly this spelling, is the latest block; every other string is what the
    /// parser of `alloy_eips` makes of it, its error passed on.
    pub fn parse(v: &str) -> (r: Result<BlockNumberOrTagExt, ParseBlockNumberError>)
        ensures
            v@ == "unsafe"@ ==> ext_reading(r) == Ok::<BlockNumberOrTag, Seq<char>>(
                BlockNumberOrTag::Latest,
            ),
            v@ != "unsafe"@ ==> ext_reading(r) == alloy_reading(v@),
            v@ != "unsafe"@ && all_ascii(v@) ==> follows_ascii_reading(v@, ext_reading(r)),
    {
        if same_text(v, "unsafe") {
            return Ok(BlockNumberOrTagExt(BlockNumberOrTag::Latest));
        }
        BlockNumberOrTagExt::from_parsed(alloy_parse(v))
    }

    /// What a request gets for a string other than `unsafe`, from what the parser said of it.
    pub fn from_parsed(parsed: Result<BlockNumberOrTag, ParseBlockNumberError>) -> (r: Result<
        BlockNumberOrTagExt,
        ParseBlockNumberError,
    >)
        ensures
            match parsed {
                Ok(tag) => r matches Ok(ext) && ext.tag() == tag,
                Err(error) => r == Err::<BlockNumberOrTagExt, ParseBlockNumberError>(error),
            },
    {
        match parsed {
            Ok(tag) => Ok(BlockNumberOrTagExt(tag)),
            Err(error) => Err(error),
        }
    }

    /// Whether this is the `pending` tag.
    pub fn is_pending(&self) -> (r: bool)
        ensures
            r == (self.tag() == BlockNumberOrTag::Pending),
    {
        self.0.is_pending()
    }
}

impl From<BlockNumberOrTagExt> for BlockId {
    fn from(ext: BlockNumberOrTagExt) -> (r: BlockId) {
        BlockId::Number(ext.0)
    }
}

impl vstd::std_specs::convert::FromSpecImpl<BlockNumberOrTagExt> for BlockId {
    open spec fn obeys_from_spec() -> bool {
        true
    }

    open spec fn from_spec(ext: BlockNumberOrTagExt) -> BlockId {
        BlockId::Number(ext.tag())
    }
}

/// A request is about the very block that it gives, and about the latest where it gives none.
pub proof fn law_the_block_given_is_the_block_meant(
    given: BlockId,
    named: BlockId,
    absent: BlockId,
    default: BlockId,
)
    requires
        call_ensures(<BlockId as Default>::default, (), default),
        call_ensures(block_id_or_default, (Some(given),), named),
        call_ensures(block_id_or_default, (None::<BlockId>,), absent),
    ensures
        named == given,
        absent == BlockId::Number(BlockNumberOrTag::Latest),
        default == BlockId::Number(BlockNumberOrTag::Latest),
        requested_block(Some(given)) == given,
        requested_block(None) == BlockId::Number(BlockNumberOrTag::Latest),
{
}

/// Nothing but the `pending` tag is pending: no other tag, no number and no hash.
pub proof fn law_only_the_pending_tag_is_pending(
    tag: BlockNumberOrTag,
    id: BlockId,
    tag_pending: bool,
    id_pending: bool,
)
    requires
        call_ensures(BlockNumberOrTag::is_pending, (&tag,), tag_pending),
        call_ensures(BlockId::is_pending, (&id,), id_pending),
    ensures
        tag_pending <==> tag == BlockNumberOrTag::Pending,
        id_pending <==> id == BlockId::Number(BlockNumberOrTag::Pending),
        id.names_pending() <==> id == BlockId::Number(BlockNumberOrTag::Pending),
{
}

/// A wrapped tag is the tag that was wrapped: pending exactly where it is, and the same block.
pub proof fn law_a_wrapped_tag_is_kept(
    tag: BlockNumberOrTag,
    ext: BlockNumberOrTagExt,
    pending: bool,
    id: BlockId,
)
    requires
        call_ensures(BlockNumberOrTagExt::new, (tag,), ext),
        call_ensures(BlockNumberOrTagExt::is_pending, (&ext,), pending),
        call_ensures(<BlockId as From<BlockNumberOrTagExt>>::from, (ext,), id),
    ensures
        pending <==> tag == BlockNumberOrTag::Pending,
        id == BlockId::Number(tag),
{
}

/// What the parser says is passed on: its tag, or its error.
pub proof fn law_the_reading_is_passed_on(
    parsed: Result<BlockNumberOrTag, ParseBlockNumberError>,
    r: Result<BlockNumberOrTagExt, ParseBlockNumberError>,
    id: BlockId,
)
    requires
        call_ensures(BlockNumberOrTagExt::from_parsed, (parsed,), r),
        r is Ok ==> call_ensures(<BlockId as From<BlockNumberOrTagExt>>::from, (r->Ok_0,), id),
    ensures
        r is Ok <==> parsed is Ok,
        parsed matches Ok(tag) ==> id == BlockId::Number(tag),
        parsed matches Err(error) ==> r->Err_0 == error,
{
}

/// Whether `text` spells `name`, each letter in either case.
pub open spec fn spells(text: Seq<char>, name: Seq<char>) -> bool {
    text.len() == name.len() && forall|i: int|
        0 <= i < text.len() ==> (#[trigger] text[i] == name[i] || ('A' <= text[i] <= 'Z' && text[i]
            as int + 32 == name[i] as int))
}

proof fn lemma_spelling(text: Seq<char>, name: Seq<char>)
    requires
        spells(text, name),
        forall|i: int| 0 <= i < name.len() ==> 'a' <= #[trigger] name[i] <= 'z',
    ensures
        ascii_lower(text) == name,
        all_ascii(text),
{
    assert forall|i: int| 0 <= i < text.len() implies ascii_lower(text)[i] == name[i] && (
    #[trigger] text[i] as u32) < 128 by {
        assert('a' <= name[i] <= 'z');
    }
    assert(ascii_lower(text) =~= name);
}

/// The name `unsafe` is the latest block in this spelling alone. Each tag is read from its name, in
/// whatever case it is written.
pub proof fn law_tags_are_read_by_name(
    v: &str,
    r: Result<BlockNumberOrTagExt, ParseBlockNumberError>,
    id: BlockId,
)
    requires
        call_ensures(BlockNumberOrTagExt::parse, (v,), r),
        r is Ok ==> call_ensures(<BlockId as From<BlockNumberOrTagExt>>::from, (r->Ok_0,), id),
    ensures
        v@ == "unsafe"@ ==> r is Ok && id == BlockId::Number(BlockNumberOrTag::Latest),
        spells(v@, "unsafe"@) && v@ != "unsafe"@ ==> r is Err,
        spells(v@, "latest"@) ==> r is Ok && id == BlockId::Number(BlockNumberOrTag::Latest),
        spells(v@, "finalized"@) ==> r is Ok && id == BlockId::Number(BlockNumberOrTag::Finalized),
        spells(v@, "safe"@) ==> r is Ok && id == BlockId::Number(BlockNumberOrTag::Safe),
        spells(v@, "earliest"@) ==> r is Ok && id == BlockId::Number(BlockNumberOrTag::Earliest),
        spells(v@, "pending"@) ==> r is Ok && id == BlockId::Number(BlockNumberOrTag::Pending),
{
    reveal_strlit("unsafe");
    reveal_strlit("latest");
    reveal_strlit("finalized");
    reveal_strlit("safe");
    reveal_strlit("earliest");
    reveal_strlit("pending");
    if spells(v@, "unsafe"@) {
        lemma_spelling(v@, "unsafe"@);
        assert("unsafe"@[0] == 'u');
        assert("latest"@[0] == 'l');
    }
    if spells(v@, "latest"@) {
        lemma_spelling(v@, "latest"@);
        assert(v@[0] != 'u');
    }
    if spells(v@, "finalized"@) {
        lemma_spelling(v@, "finalized"@);
    }
    if spells(v@, "safe"@) {
        lemma_spelling(v@, "safe"@);
    }
    if spells(v@, "earliest"@) {
        lemma_spelling(v@, "earliest"@);
        assert("finalized"@.len() != "earliest"@.len());
    }
    if spells(v@, "pending"@) {
        lemma_spelling(v@, "pending"@);
    }
}

/// Whether a character is a hexadecimal digit, in either case, of the given value.
pub open spec fn is_hex_digit(c: char, value: int) -> bool {
    ||| '0' <= c <= '9' && value == c as int - '0' as int
    ||| 'a' <= c <= 'f' && value == c as int - 'a' as int + 10
    ||| 'A' <= c <= 'F' && value == c as int - 'A' as int + 10
}

proof fn lemma_digit_appended(before: Seq<char>, c: char, value: int)
    requires
        is_hex_digit(c, value),
    ensures
        (c as u32) < 128,
        all_ascii(before) ==> all_ascii(before.push(c)),
        hex_digit(ascii_lower_char(c)) == Some(value as nat),
        ascii_lower_char(c) != '+',
        ascii_lower(before.push(c)) == ascii_lower(before).push(ascii_lower_char(c)),
        hex_value(ascii_lower(before).push(ascii_lower_char(c))) == hex_value(ascii_lower(before)) * 16
            + value,
{
    let lower = ascii_lower(before).push(ascii_lower_char(c));
    assert(ascii_lower(before.push(c)) =~= lower);
    assert(lower.drop_last() =~= ascii_lower(before));
    if all_ascii(before) {
        assert forall|i: int| 0 <= i < before.push(c).len() implies (#[trigger] before.push(c)[i]
            as u32) < 128 by {
            if i < before.len() {
                assert((before[i] as u32) < 128);
            }
        }
    }
}

proof fn lemma_number_read(text: Seq<char>, digits: Seq<char>)
    requires
        ascii_lower(text) == "0x"@ + digits,
    ensures
        lower_case_reading(ascii_lower(text)) == (match hex_u64(digits) {
            Some(number) => Some(BlockNumberOrTag::Number(number)),
            None => None,
        }),
        text != "unsafe"@,
{
    reveal_strlit("0x");
    reveal_strlit("unsafe");
    reveal_strlit("latest");
    reveal_strlit("finalized");
    reveal_strlit("safe");
    reveal_strlit("earliest");
    reveal_strlit("pending");
    let lower = ascii_lower(text);
    assert(lower[0] == '0');
    assert(lower[1] == 'x');
    assert(lower[0] == ascii_lower_char(text[0]));
    assert("unsafe"@[0] == 'u');
    assert("latest"@[0] == 'l');
    assert("finalized"@[0] == 'f');
    assert("safe"@[0] == 's');
    assert("earliest"@[0] == 'e');
    assert("pending"@[0] == 'p');
    assert(lower.skip(2) =~= digits);
}

/// A number is read digit by digit from hexadecimal behind `0x`: one more digit makes it sixteen
/// times as large, plus the digit, and is refused where that is too large for a block number.
pub proof fn law_numbers_are_read_digit_by_digit(
    before: &str,
    after: &str,
    c: char,
    value: int,
    number: u64,
    read: Result<BlockNumberOrTagExt, ParseBlockNumberError>,
    r: Result<BlockNumberOrTagExt, ParseBlockNumberError>,
)
    requires
        call_ensures(BlockNumberOrTagExt::parse, (before,), read),
        call_ensures(BlockNumberOrTagExt::parse, (after,), r),
        all_ascii(before@),
        after@ == before@.push(c),
        is_hex_digit(c, value),
        before@ == "0x"@ || (read matches Ok(ext) && ext.tag() == BlockNumberOrTag::Number(number)),
    ensures
        before@ == "0x"@ ==> (r matches Ok(ext) && ext.tag() == BlockNumberOrTag::Number(
            value as u64,
        )),
        before@ != "0x"@ && number * 16 + value <= u64::MAX ==> (r matches Ok(ext) && ext.tag()
            == BlockNumberOrTag::Number((number * 16 + value) as u64)),
        before@ != "0x"@ && number * 16 + value > u64::MAX ==> r is Err,
{
    reveal_strlit("0x");
    lemma_digit_appended(before@, c, value);
    let lower = ascii_lower(before@);
    let last = ascii_lower_char(c);
    if before@ == "0x"@ {
        assert(lower =~= "0x"@);
        let digits = Seq::<char>::empty().push(last);
        assert(ascii_lower(after@) =~= "0x"@ + digits);
        lemma_number_read(after@, digits);
        assert(digits.drop_last() =~= Seq::<char>::empty());
        assert(hex_value(Seq::<char>::empty()) == 0);
        assert(hex_value(digits) == value);
        assert(digits[0] == last);
    } else {
        assert(before@ != "unsafe"@);
        assert(has_hex_prefix(lower));
        let text = lower.skip(2);
        assert(lower =~= "0x"@ + text);
        assert(hex_u64(text) == Some(number));
        assert(ascii_lower(after@) =~= "0x"@ + text.push(last));
        lemma_number_read(after@, text.push(last));
        let signed = text.len() > 0 && text[0] == '+';
        let digits = if signed {
            text.skip(1)
        } else {
            text
        };
        assert(text.push(last)[0] == text[0]);
        if signed {
            assert(text.push(last).skip(1) =~= digits.push(last));
        }
        assert(digits.push(last).drop_last() =~= digits);
        assert(hex_value(digits.push(last)) == number * 16 + value);
        assert forall|i: int| 0 <= i < digits.push(last).len() implies hex_digit(
            #[trigger] digits.push(last)[i],
        ) is Some by {
            if i < digits.len() {
                assert(hex_digit(digits[i]) is Some);
            }
        }
    }
}

/// Every string but `unsafe` is what the parser makes of it: its tag, or its error with its message.
/// A string of ASCII characters that names no tag and does not start with `0x` is refused for want
/// of that prefix.
pub proof fn law_other_strings_are_what_the_parser_makes_of_them(
    v: &str,
    r: Result<BlockNumberOrTagExt, ParseBlockNumberError>,
    id: BlockId,
)
    requires
        call_ensures(BlockNumberOrTagExt::parse, (v,), r),
        r is Ok ==> call_ensures(<BlockId as From<BlockNumberOrTagExt>>::from, (r->Ok_0,), id),
        v@ != "unsafe"@,
    ensures
        r is Ok <==> alloy_reading(v@) is Ok,
        r is Ok ==> id == BlockId::Number(alloy_reading(v@)->Ok_0),
        r is Err ==> r->Err_0.message@ == alloy_reading(v@)->Err_0,
        all_ascii(v@) && v@.len() > 0 && v@[0] != '0' && !spells(v@, "latest"@) && !spells(
            v@,
            "finalized"@,
        ) && !spells(v@, "safe"@) && !spells(v@, "earliest"@) && !spells(v@, "pending"@) ==> r is Err
            && r->Err_0.message@ == "hex string without 0x prefix"@,
{
    let lower = ascii_lower(v@);
    assert forall|i: int| 0 <= i < v@.len() implies lower[i] == #[trigger] v@[i] || ('A' <= v@[i]
        <= 'Z' && v@[i] as int + 32 == lower[i] as int) by {}
    assert(spells(v@, lower));
    if v@.len() > 0 {
        assert(lower[0] == ascii_lower_char(v@[0]));
    }
}

} // verus!
