use vstd::prelude::*;
use vstd::string::StringSliceAdditionalSpecFns;

verus! {

/// Member of the scorer's JSON answer that holds the verdict.
pub const TOXIC_KEY: &'static str = "toxic";

/// Why no verdict could be had for a message.
#[derive(Debug, Clone, Copy, PartialEq, Eq, Structural)]
pub enum ClassifierError {
    /// The request to the scorer failed.
    Transport,
    /// The answer is no JSON object with an unsigned integer under `toxic`.
    MissingScore,
}

/// Bytes that a URL query carries as they are: ASCII letters and digits and
/// `-`, `.`, `_`, `~`.
pub open spec fn is_unreserved(b: u8) -> bool {
    (48 <= b <= 57) || (65 <= b <= 90) || (97 <= b <= 122) || b == 45 || b == 46 || b == 95 || b == 126
}

/// Upper-case hex digit of a value below 16.
pub open spec fn hex_digit(d: u8) -> char {
    if d < 10 {
        ((48 + d) as u8) as char
    } else {
        ((55 + d) as u8) as char
    }
}

/// Percent-encoding of bytes: an unreserved byte stands for itself, any
/// other becomes `%` and its two upper-case hex digits.
pub open spec fn percent_encoded(bytes: Seq<u8>) -> Seq<char>
    decreases bytes.len(),
{
    if bytes.len() == 0 {
        Seq::empty()
    } else {
        let b = bytes[0];
        let head = if is_unreserved(b) {
            seq![b as char]
        } else {
            seq!['%', hex_digit(b / 16), hex_digit(b % 16)]
        };
        head + percent_encoded(bytes.drop_first())
    }
}

/// Decimal digit of a value below 10.
pub open spec fn digit_char(d: nat) -> char {
    ((48 + d) as u8) as char
}

/// Decimal notation of a number, without leading zeros.
pub open spec fn decimal(n: nat) -> Seq<char>
    decreases n,
{
    if n < 10 {
        seq![digit_char(n)]
    } else {
        decimal(n / 10) + seq![digit_char(n % 10)]
    }
}

/// The scoring request for a query: `http://<host>:<port>/text?q=<query>`.
pub open spec fn scoring_uri(host: Seq<char>, port: u16, query: Seq<char>) -> Seq<char> {
    "http://"@ + host + ":"@ + decimal(port as nat) + "/text?q="@ + query
}

/// The verdict for a score read from the scorer's answer.
pub open spec fn verdict_of(score: Option<u64>) -> Result<bool, ClassifierError> {
    match score {
        Some(n) => Ok(n == 1),
        None => Err(ClassifierError::MissingScore),
    }
}

/// What `serde_json` reads under `key` in the top-level object of `body`.
pub uninterp spec fn json_u64_member(body: Seq<u8>, key: Seq<char>) -> Option<u64>;

/// Relies on urlencoding::encode: every UTF-8 byte of the text but ASCII
/// letters, digits and `-._~` becomes `%` and two upper-case hex digits.
#[verifier::external_body]
fn url_encode(text: &str) -> (r: String)
    ensures
        r@ == percent_encoded(text.spec_bytes()),
{
    urlencoding::encode(text).into_owned()
}

/// Relies on serde_json::from_slice into a serde_json::Value, then
/// Value::get and Value::as_u64: the unsigned integer under `key` in the
/// top-level object of `body`; `None` when the body is no JSON, no object,
/// lacks the member, or the member is no such integer.
#[verifier::external_body]
fn json_member_u64(body: &[u8], key: &str) -> (r: Option<u64>)
    ensures
        r == json_u64_member(body@, key@),
{
    match serde_json::from_slice::<serde_json::Value>(body) {
        Ok(value) => match value.get(key) {
            Some(member) => member.as_u64(),
            None => None,
        },
        Err(_) => None,
    }
}

/// The single-character text of a decimal digit.
fn digit_text(d: u64) -> (r: &'static str)
    requires
        d < 10,
    ensures
        r@ == seq![digit_char(d as nat)],
{
    proof {
        reveal_strlit("0");
        reveal_strlit("1");
        reveal_strlit("2");
        reveal_strlit("3");
        reveal_strlit("4");
        reveal_strlit("5");
        reveal_strlit("6");
        reveal_strlit("7");
        reveal_strlit("8");
        reveal_strlit("9");
    }
    let r = match d {
        0 => "0",
        1 => "1",
        2 => "2",
        3 => "3",
        4 => "4",
        5 => "5",
        6 => "6",
        7 => "7",
        8 => "8",
        _ => "9",
    };
    assert(r@ =~= seq![digit_char(d as nat)]);
    r
}

/// Appends the decimal notation of `n`.
pub(crate) fn append_decimal(out: &mut String, n: u64)
    ensures
        final(out)@ == old(out)@ + decimal(n as nat),
    decreases n,
{
    if n >= 10 {
        append_decimal(out, n / 10);
    }
    out.append(digit_text(n % 10));
    assert(final(out)@ =~= old(out)@ + decimal(n as nat));
}

/// The verdict for the score in the scorer's answer: toxic exactly when the
/// score is 1; no score is an error.
pub fn toxicity_verdict(score: Option<u64>) -> (r: Result<bool, ClassifierError>)
    ensures
        r == verdict_of(score),
{
    match score {
        Some(n) => Ok(n == 1),
        None => Err(ClassifierError::MissingScore),
    }
}

/// The verdict carried by the body of the scorer's answer.
pub fn verdict_from_response(body: &[u8]) -> (r: Result<bool, ClassifierError>)
    ensures
        r == verdict_of(json_u64_member(body@, TOXIC_KEY@)),
{
    toxicity_verdict(json_member_u64(body, TOXIC_KEY))
}

/// Where the toxicity scorer listens.
pub struct ToxicService {
    host: String,
    port: u16,
}

impl ToxicService {
    /// The scorer's host name.
    pub closed spec fn host_spec(&self) -> Seq<char> {
        self.host@
    }

    /// The scorer's port.
    pub closed spec fn port_spec(&self) -> u16 {
        self.port
    }

    pub fn new(host: String, port: u16) -> (r: ToxicService)
        ensures
            r.host_spec() == host@,
            r.port_spec() == port,
    {
        ToxicService { host, port }
    }

    /// The request that scores `text`, the text percent-encoded as query.
    pub fn get_uri(&self, text: &str) -> (r: String)
        ensures
            r@ == scoring_uri(self.host_spec(), self.port_spec(), percent_encoded(text.spec_bytes())),
    {
        let mut uri = String::from_str("http://");
        uri.append(self.host.as_str());
        uri.append(":");
        append_decimal(&mut uri, self.port as u64);
        uri.append("/text?q=");
        let query = url_encode(text);
        uri.append(query.as_str());
        uri
    }
}

} // verus!
