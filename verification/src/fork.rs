use vstd::prelude::*;
use crate::text::{ci_matches, is_digit_seq, parse_u64_decimal, spec_parse_u64, str_ci_eq};

verus! {

/// Fork parameters as collected from the test attributes, still unchecked.
#[derive(Debug)]
pub struct RawForkParams {
    pub url: String,
    pub block_id_type: String,
    pub block_id_value: String,
}

/// The block a forked case pins its state to.
#[derive(Debug)]
pub enum BlockId {
    /// A block number.
    Number(u64),
    /// A block hash, kept as the decimal digits it was written with.
    Hash(String),
    /// The latest block.
    Tag,
}

/// A fork target whose URL parsed and whose block identifier was recognized.
#[derive(Debug)]
pub struct ValidatedForkConfig {
    pub url: String,
    pub block_id: BlockId,
}

/// What `url::Url::parse` yields on a given text: the normalized
/// serialization of the URL when the text parses as an absolute URL, nothing
/// otherwise.
pub uninterp spec fn parsed_url(s: Seq<char>) -> Option<Seq<char>>;

/// Relies on url::Url::parse, a pure parse of an absolute URL, and on
/// Url::as_str, which returns the parsed URL's serialization.
#[verifier::external_body]
fn parse_url(s: &str) -> (r: Option<String>)
    ensures
        r is Some <==> parsed_url(s@) is Some,
        r matches Some(u) ==> parsed_url(s@) == Some(u@),
{
    match url::Url::parse(s) {
        Ok(u) => Some(u.as_str().to_owned()),
        Err(_) => None,
    }
}

/// Why a raw fork configuration was rejected.
#[derive(Debug, PartialEq, Eq, Structural, Clone, Copy)]
pub enum ForkConfigError {
    /// The block identifier kind was none of `number`, `hash`, `tag`.
    InvalidBlockIdKind,
    /// The URL did not parse as an absolute URL.
    InvalidUrl,
}

impl ValidatedForkConfig {
    pub fn new(url: String, block_id: BlockId) -> (r: Self)
        ensures
            r == (ValidatedForkConfig { url, block_id }),
    {
        Self { url, block_id }
    }

    /// Validate raw fork parameters.
    ///
    /// The kind is matched after folding ASCII upper case: `number` takes a
    /// decimal block number, `hash` a decimal block hash, `tag` exactly
    /// `Latest`. Any other kind is rejected; then the URL must parse.
    pub fn try_from(value: RawForkParams) -> (r: Result<Self, ForkConfigError>)
        requires
            ci_matches(value.block_id_type@, "number"@) ==> spec_parse_u64(
                value.block_id_value@,
            ) is Some,
            ci_matches(value.block_id_type@, "hash"@) ==> is_digit_seq(value.block_id_value@),
            ci_matches(value.block_id_type@, "tag"@) ==> value.block_id_value@ == "Latest"@,
        ensures
            r matches Ok(c) ==> {
                &&& parsed_url(value.url@) == Some(c.url@)
                &&& match c.block_id {
                    BlockId::Number(n) => ci_matches(value.block_id_type@, "number"@)
                        && Some(n) == spec_parse_u64(value.block_id_value@),
                    BlockId::Hash(h) => ci_matches(value.block_id_type@, "hash"@)
                        && h@ == value.block_id_value@,
                    BlockId::Tag => ci_matches(value.block_id_type@, "tag"@),
                }
            },
            r == Err::<Self, _>(ForkConfigError::InvalidBlockIdKind) <==> {
                &&& !ci_matches(value.block_id_type@, "number"@)
                &&& !ci_matches(value.block_id_type@, "hash"@)
                &&& !ci_matches(value.block_id_type@, "tag"@)
            },
            r == Err::<Self, _>(ForkConfigError::InvalidUrl) <==> {
                &&& (ci_matches(value.block_id_type@, "number"@)
                    || ci_matches(value.block_id_type@, "hash"@)
                    || ci_matches(value.block_id_type@, "tag"@))
                &&& parsed_url(value.url@) is None
            },
{
        let kind = value.block_id_type.as_str();
        let block_id: BlockId = if str_ci_eq(kind, "number") {
            match parse_u64_decimal(value.block_id_value.as_str()) {
                Some(n) => BlockId::Number(n),
                None => vstd::pervasive::unreached(),
            }
        } else if str_ci_eq(kind, "hash") {
            BlockId::Hash(value.block_id_value)
        } else if str_ci_eq(kind, "tag") {
            BlockId::Tag
        } else {
            return Err(ForkConfigError::InvalidBlockIdKind);
        };
        match parse_url(value.url.as_str()) {
            Some(url) => Ok(ValidatedForkConfig { url, block_id }),
            None => Err(ForkConfigError::InvalidUrl),
        }
    }
}

} // verus!
