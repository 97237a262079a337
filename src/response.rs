//! Assembly of the response bytes: status line, `Content-Length` header and body.
use vstd::prelude::*;

verus! {

/// The ASCII digit for a value below ten.
pub open spec fn digit(d: nat) -> u8
    recommends
        d < 10,
{
    (48 + d) as u8
}

/// The decimal representation of `n`, most significant digit first, without
/// leading zeros.
pub open spec fn decimal(n: nat) -> Seq<u8>
    decreases n,
{
    if n < 10 {
        seq![digit(n)]
    } else {
        decimal(n / 10).push(digit(n % 10))
    }
}

/// Appends the decimal representation of `n` to `out`.
pub fn push_decimal(out: &mut Vec<u8>, n: usize)
    ensures
        final(out)@ == old(out)@ + decimal(n as nat),
    decreases n,
{
    if n >= 10 {
        push_decimal(out, n / 10);
    }
    out.push(48u8 + (n % 10) as u8);
    proof {
        assert(out@ =~= old(out)@ + decimal(n as nat));
    }
}

/// The two statuses a response can carry.
#[derive(Clone, Copy, Debug, PartialEq, Eq, Structural)]
pub enum Status {
    /// The requested file was read.
    Found,
    /// The requested file could not be read.
    NotFound,
}

/// `"HTTP/1.1 "`
pub open spec fn version_prefix() -> Seq<u8> {
    seq![72, 84, 84, 80, 47, 49, 46, 49, 32]
}

/// The status text: `"200 OK"` or `"404 NOT FOUND"`.
pub open spec fn status_text(status: Status) -> Seq<u8> {
    match status {
        Status::Found => seq![50, 48, 48, 32, 79, 75],
        Status::NotFound => seq![
            52, 48, 52, 32, 78, 79, 84, 32, 70, 79, 85, 78, 68,
        ],
    }
}

/// `"\r\nContent-Length: "`
pub open spec fn length_prefix() -> Seq<u8> {
    seq![
        13, 10, 67, 111, 110, 116, 101, 110, 116, 45, 76, 101, 110, 103,
        116, 104, 58, 32,
    ]
}

/// `"\r\n\r\n"`
pub open spec fn header_end() -> Seq<u8> {
    seq![13, 10, 13, 10]
}

/// The full response: `HTTP/1.1 <status>\r\nContent-Length: <n>\r\n\r\n<body>`,
/// where `n` is the body's length in decimal.
pub open spec fn response_bytes(status: Status, body: Seq<u8>) -> Seq<u8> {
    version_prefix() + status_text(status) + length_prefix() + decimal(body.len()) + header_end()
        + body
}

/// Appends every byte of `bytes` to `out`.
fn push_all(out: &mut Vec<u8>, bytes: &[u8])
    ensures
        final(out)@ == old(out)@ + bytes@,
{
    let mut i: usize = 0;
    while i < bytes.len()
        invariant
            0 <= i <= bytes@.len(),
            out@ == old(out)@ + bytes@.subrange(0, i as int),
        decreases bytes@.len() - i,
    {
        out.push(bytes[i]);
        i = i + 1;
        proof {
            assert(out@ =~= old(out)@ + bytes@.subrange(0, i as int));
        }
    }
    proof {
        assert(bytes@.subrange(0, i as int) =~= bytes@);
    }
}

/// Builds the response for `status` with `body`: the status line, a single
/// `Content-Length` header giving the body's length, a blank line, then the
/// body bytes unchanged.
pub fn build_response(status: Status, body: Vec<u8>) -> (r: Vec<u8>)
    ensures
        r@ == response_bytes(status, body@),
{
    let ghost original = body@;
    let mut body = body;
    let body_len = body.len();
    let mut out: Vec<u8> = Vec::new();
    let version: [u8; 9] = [72, 84, 84, 80, 47, 49, 46, 49, 32];
    push_all(&mut out, version.as_slice());
    match status {
        Status::Found => {
            let text: [u8; 6] = [50, 48, 48, 32, 79, 75];
            push_all(&mut out, text.as_slice());
        },
        Status::NotFound => {
            let text: [u8; 13] = [
                52, 48, 52, 32, 78, 79, 84, 32, 70, 79, 85, 78, 68,
            ];
            push_all(&mut out, text.as_slice());
        },
    }
    let length: [u8; 18] = [
        13, 10, 67, 111, 110, 116, 101, 110, 116, 45, 76, 101, 110, 103,
        116, 104, 58, 32,
    ];
    push_all(&mut out, length.as_slice());
    push_decimal(&mut out, body_len);
    let end: [u8; 4] = [13, 10, 13, 10];
    push_all(&mut out, end.as_slice());
    out.append(&mut body);
    proof {
        assert(out@ =~= response_bytes(status, original));
    }
    out
}

} // verus!
