use vstd::prelude::*;
use vstd::string::StringExecFns;
use vstd::utf8::{
    encode_utf8, encode_utf8_decode_utf8, encode_utf8_valid_utf8, is_ascii_chars_encode_utf8,
};
use crate::marshal::string_from_utf8;

verus! {

/// A failed native call: the status code it returned and the diagnostic
/// text the library reported right after it.
#[derive(Debug, Clone)]
pub struct Error {
    pub code: i32,
    pub message: String,
}

/// The ASCII digits of `n` in base ten, most significant first.
pub open spec fn decimal_digits(n: nat) -> Seq<u8>
    decreases n,
{
    if n < 10 {
        seq![(48 + n) as u8]
    } else {
        decimal_digits(n / 10).push((48 + n % 10) as u8)
    }
}

/// `n` written in base ten, with a leading minus sign when negative.
pub open spec fn decimal(n: int) -> Seq<char> {
    let digits = decimal_digits(if n < 0 { (-n) as nat } else { n as nat });
    let chars = Seq::new(digits.len(), |i: int| digits[i] as char);
    if n < 0 {
        seq!['-'] + chars
    } else {
        chars
    }
}

/// How an error reads: the library's text, then the status code.
pub open spec fn description(message: Seq<char>, code: i32) -> Seq<char> {
    message + " (error "@ + decimal(code as int) + ")"@
}

proof fn lemma_digits_ascii(n: nat)
    ensures
        forall|i: int| 0 <= i < decimal_digits(n).len() ==> 48 <= #[trigger] decimal_digits(n)[i] < 58,
    decreases n,
{
    if n >= 10 {
        lemma_digits_ascii(n / 10);
        let d = decimal_digits(n / 10);
        assert(n % 10 < 10);
        assert forall|i: int| 0 <= i < decimal_digits(n).len() implies 48
            <= #[trigger] decimal_digits(n)[i] < 58 by {
            if i < d.len() {
                assert(decimal_digits(n)[i] == d[i]);
            }
        }
    }
}

fn push_digits(n: u64, out: &mut Vec<u8>)
    ensures
        final(out)@ == old(out)@ + decimal_digits(n as nat),
    decreases n,
{
    if n >= 10 {
        push_digits(n / 10, out);
    }
    out.push((48 + n % 10) as u8);
    assert(final(out)@ =~= old(out)@ + decimal_digits(n as nat));
}

/// The text of `n` in base ten.
fn decimal_string(n: i32) -> (r: String)
    ensures
        r@ == decimal(n as int),
{
    let mut bytes: Vec<u8> = Vec::new();
    let magnitude: u64 = if n < 0 { (-(n as i64)) as u64 } else { n as u64 };
    if n < 0 {
        bytes.push(45u8);
    }
    push_digits(magnitude, &mut bytes);
    let ghost chars = decimal(n as int);
    proof {
        let digits = decimal_digits(magnitude as nat);
        lemma_digits_ascii(magnitude as nat);
        assert(vstd::utf8::is_ascii_chars(chars));
        is_ascii_chars_encode_utf8(chars);
        assert(encode_utf8(chars) =~= bytes@);
        encode_utf8_valid_utf8(chars);
        encode_utf8_decode_utf8(chars);
    }
    // ASCII digits are always valid UTF-8, so the second arm never runs.
    match string_from_utf8(bytes) {
        Some(s) => s,
        None => String::new(),
    }
}

impl Error {
    pub fn new(code: i32, message: String) -> (r: Error)
        ensures
            r.code == code,
            r.message@ == message@,
    {
        Error { code, message }
    }

    pub fn code(&self) -> (r: i32)
        ensures
            r == self.code,
    {
        self.code
    }

    /// The error as a reader sees it: the library's text, then the code.
    pub fn describe(&self) -> (r: String)
        ensures
            r@ == description(self.message@, self.code),
    {
        let head = self.message.clone().concat(" (error ");
        let digits = decimal_string(self.code);
        let body = head.concat(digits.as_str());
        body.concat(")")
    }

    pub fn message(&self) -> (r: &str)
        ensures
            r@ == self.message@,
    {
        self.message.as_str()
    }
}

/// Turns the status of a native call into a result: zero is success and
/// yields `value`; any other code becomes an `Error` carrying `message`.
pub fn status_result<T>(status: i32, value: T, message: String) -> (r: Result<T, Error>)
    ensures
        status == 0 ==> r == Ok::<T, Error>(value),
        status != 0 ==> (r matches Err(e) && e.code == status && e.message@ == message@),
{
    if status == 0 {
        Ok(value)
    } else {
        Err(Error::new(status, message))
    }
}

} // verus!
