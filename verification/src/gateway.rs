use vstd::prelude::*;
use vstd::string::StrSliceExecFns;
use vstd::string::StringExecFns;

verus! {

/// A decimal digit, `'0'` through `'9'`.
pub open spec fn is_dec_digit(c: char) -> bool {
    48 <= c as u32 && c as u32 <= 57
}

/// The value of one decimal digit.
pub open spec fn digit_val(c: char) -> int {
    c as u32 - 48
}

/// Every character of `s` is a decimal digit.
pub open spec fn all_digits(s: Seq<char>) -> bool {
    forall|i: int| 0 <= i < s.len() ==> is_dec_digit(s[i])
}

/// The value of a digit string read as a base-10 number.
pub open spec fn decimal_value(s: Seq<char>) -> int
    decreases s.len(),
{
    if s.len() == 0 {
        0
    } else {
        decimal_value(s.drop_last()) * 10 + digit_val(s.last())
    }
}

/// The digit part of an unsigned decimal literal: an optional leading `'+'`
/// sign is skipped.
pub open spec fn port_digits(s: Seq<char>) -> Seq<char> {
    if s.len() > 0 && s[0] == '+' {
        s.subrange(1, s.len() as int)
    } else {
        s
    }
}

/// `s` is a well-formed port number: after an optional `'+'`, one or more
/// decimal digits whose value fits a 16-bit port.
pub open spec fn is_port_literal(s: Seq<char>) -> bool {
    &&& port_digits(s).len() > 0
    &&& all_digits(port_digits(s))
    &&& decimal_value(port_digits(s)) <= 65535
}

/// The port a well-formed port literal denotes.
pub open spec fn spec_port_value(s: Seq<char>) -> int {
    decimal_value(port_digits(s))
}

/// `s` holds a `':'` somewhere.
pub open spec fn has_colon(s: Seq<char>) -> bool {
    exists|i: int| 0 <= i < s.len() && s[i] == ':'
}

/// What `parse_http_port` returns: a bare port gets the all-interfaces host
/// in front, a bare host gets the default gateway port behind, and an
/// argument that already holds a separator passes through unchanged.
pub open spec fn spec_http_addr(s: Seq<char>) -> Seq<char> {
    if has_colon(s) {
        s
    } else if is_port_literal(s) {
        "0.0.0.0:"@ + s
    } else {
        s + ":8000"@
    }
}

proof fn lemma_decimal_value_nonneg(s: Seq<char>)
    requires
        all_digits(s),
    ensures
        decimal_value(s) >= 0,
    decreases s.len(),
{
    if s.len() > 0 {
        assert(all_digits(s.drop_last())) by {
            assert(forall|i: int|
                0 <= i < s.drop_last().len() ==> s.drop_last()[i] == s[i]);
        }
        lemma_decimal_value_nonneg(s.drop_last());
    }
}

/// Reading more digits never shrinks the value: the value of a prefix of a
/// digit string bounds the value of the whole string from below.
proof fn lemma_decimal_value_prefix_le(s: Seq<char>, k: int)
    requires
        all_digits(s),
        0 <= k <= s.len(),
    ensures
        decimal_value(s.subrange(0, k)) <= decimal_value(s),
    decreases s.len() - k,
{
    if k == s.len() {
        assert(s.subrange(0, k) =~= s);
    } else {
        let a = s.subrange(0, k);
        let b = s.subrange(0, k + 1);
        assert(b.drop_last() =~= a);
        assert(all_digits(a)) by {
            assert(forall|i: int| 0 <= i < a.len() ==> a[i] == s[i]);
        }
        lemma_decimal_value_nonneg(a);
        assert(decimal_value(b) == decimal_value(a) * 10 + digit_val(s[k]));
        assert(is_dec_digit(s[k]));
        lemma_decimal_value_prefix_le(s, k + 1);
    }
}

/// Parse an unsigned 16-bit decimal, the way a port argument is read: an
/// optional `'+'`, then one or more digits, value at most 65535. Returns the
/// value exactly when the string has that shape.
pub fn parse_u16(s: &str) -> (r: Option<u16>)
    ensures
        r is Some <==> is_port_literal(s@),
        r is Some ==> r->Some_0 == spec_port_value(s@),
{
    let n = s.unicode_len();
    let mut start: usize = 0;
    if n > 0 && s.get_char(0) == '+' {
        start = 1;
    }
    let ghost ds = port_digits(s@);
    proof {
        assert(ds =~= s@.subrange(start as int, n as int));
    }
    if start == n {
        // nothing after the sign (or an empty argument): not a number
        return None;
    }
    let mut i: usize = start;
    let mut val: u32 = 0;
    while i < n
        invariant
            start <= i <= n,
            n == s@.len(),
            ds == port_digits(s@),
            ds == s@.subrange(start as int, n as int),
            all_digits(s@.subrange(start as int, i as int)),
            val == decimal_value(s@.subrange(start as int, i as int)),
            val <= 65535,
        decreases n - i,
    {
        let c = s.get_char(i);
        let cv = c as u32;
        if cv < 48 || 57 < cv {
            proof {
                assert(ds[i - start] == s@[i as int]);
                assert(!all_digits(ds));
            }
            return None;
        }
        let d = cv - 48;
        let ghost pre = s@.subrange(start as int, i as int);
        let ghost nxt = s@.subrange(start as int, i as int + 1);
        proof {
            assert(nxt.drop_last() =~= pre);
            assert(nxt.last() == s@[i as int]);
            assert(decimal_value(nxt) == decimal_value(pre) * 10 + digit_val(s@[i as int]));
            assert(all_digits(nxt)) by {
                assert(forall|j: int| 0 <= j < pre.len() ==> nxt[j] == pre[j]);
            }
        }
        let next_val = val * 10 + d;
        if next_val > 65535 {
            proof {
                if all_digits(ds) {
                    lemma_decimal_value_prefix_le(ds, i + 1 - start);
                    assert(nxt =~= ds.subrange(0, i + 1 - start));
                }
            }
            return None;
        }
        val = next_val;
        i = i + 1;
    }
    proof {
        assert(s@.subrange(start as int, i as int) =~= ds);
    }
    Some(val as u16)
}

/// Whether the string holds a `':'`.
fn contains_colon(s: &str) -> (r: bool)
    ensures
        r == has_colon(s@),
{
    let n = s.unicode_len();
    let mut i: usize = 0;
    while i < n
        invariant
            i <= n,
            n == s@.len(),
            forall|j: int| 0 <= j < i ==> s@[j] != ':',
        decreases n - i,
    {
        if s.get_char(i) == ':' {
            proof {
                assert(s@[i as int] == ':');
            }
            return true;
        }
        i = i + 1;
    }
    false
}

/// Normalize the gateway's listen-address argument. A bare port number is
/// served on every interface (`0.0.0.0`), a bare host name gets the default
/// gateway port `8000`, and an argument that already carries a `host:port`
/// separator is taken as it stands.
pub fn parse_http_port(arg: &str) -> (r: String)
    ensures
        r@ == spec_http_addr(arg@),
{
    if contains_colon(arg) {
        arg.to_owned()
    } else if parse_u16(arg).is_some() {
        let mut r = String::from_str("0.0.0.0:");
        r.append(arg);
        r
    } else {
        let mut r = arg.to_owned();
        r.append(":8000");
        r
    }
}

/// The position of the first `'?'` in `s` at or after `from`, or the length
/// of `s` when there is none.
pub open spec fn qmark_from(s: Seq<char>, from: int) -> int
    decreases s.len() - from
        when 0 <= from <= s.len()
{
    if from >= s.len() {
        s.len() as int
    } else if s[from] == '?' {
        from
    } else {
        qmark_from(s, from + 1)
    }
}

/// The predicate carried by a request path: the segment between the first and
/// the second `'?'`; empty when the path carries no `'?'` at all.
pub open spec fn spec_predicate(s: Seq<char>) -> Seq<char> {
    let i = qmark_from(s, 0);
    if i == s.len() {
        Seq::empty()
    } else {
        s.subrange(i + 1, qmark_from(s, i + 1))
    }
}

fn find_qmark(s: &str, from: usize) -> (r: usize)
    requires
        from <= s@.len(),
    ensures
        r == qmark_from(s@, from as int),
        from <= r <= s@.len(),
        r < s@.len() ==> s@[r as int] == '?',
{
    let n = s.unicode_len();
    let mut i: usize = from;
    while i < n
        invariant
            from <= i <= n,
            n == s@.len(),
            qmark_from(s@, from as int) == qmark_from(s@, i as int),
        decreases n - i,
    {
        if s.get_char(i) == '?' {
            return i;
        }
        i = i + 1;
    }
    n
}

/// Split a request path into the resource path being queried and the
/// predicate refining the query: the path is everything before the first
/// `'?'`, the predicate the segment between the first and the second; a
/// request without a `'?'` queries the whole path with an empty predicate.
pub fn split_path_predicate(url_path: &str) -> (r: (String, String))
    ensures
        r.0@ == url_path@.subrange(0, qmark_from(url_path@, 0)),
        r.1@ == spec_predicate(url_path@),
{
    let n = url_path.unicode_len();
    let q1 = find_qmark(url_path, 0);
    let path = url_path.substring_char(0, q1).to_owned();
    if q1 == n {
        (path, String::new())
    } else {
        let q2 = find_qmark(url_path, q1 + 1);
        let predicate = url_path.substring_char(q1 + 1, q2).to_owned();
        (path, predicate)
    }
}

/// One answer to a gateway query: a data reply carries the resource key it
/// was published under and its payload already decoded to text; every other
/// kind of reply carries no data and is skipped by the JSON rendering.
#[derive(Clone, PartialEq, Debug)]
pub enum Reply {
    Data { key: String, value: String },
    Other,
}

/// The JSON object rendered for one data reply.
pub open spec fn json_entry(key: Seq<char>, value: Seq<char>) -> Seq<char> {
    "{ \"key\": \""@ + key + "\",\n  \"value\": \""@ + value + "\",\n  \"time\": \"None\" }"@
}

/// Some reply in `rs` carries data.
pub open spec fn has_data(rs: Seq<Reply>) -> bool {
    exists|i: int| 0 <= i < rs.len() && rs[i] is Data
}

/// The body of the JSON answer: the entries of the data replies, in order,
/// joined by `",\n"`; replies without data contribute nothing.
pub open spec fn json_body(rs: Seq<Reply>) -> Seq<char>
    decreases rs.len(),
{
    if rs.len() == 0 {
        Seq::empty()
    } else {
        let rest = json_body(rs.drop_last());
        match rs.last() {
            Reply::Data { key, value } => if has_data(rs.drop_last()) {
                rest + ",\n"@ + json_entry(key@, value@)
            } else {
                json_entry(key@, value@)
            },
            Reply::Other => rest,
        }
    }
}

proof fn lemma_json_body_no_data(rs: Seq<Reply>)
    requires
        !has_data(rs),
    ensures
        json_body(rs) == Seq::<char>::empty(),
    decreases rs.len(),
{
    if rs.len() > 0 {
        assert(!(rs[rs.len() - 1] is Data));
        assert(!has_data(rs.drop_last())) by {
            if has_data(rs.drop_last()) {
                let w = choose|w: int| 0 <= w < rs.drop_last().len() && rs.drop_last()[w] is Data;
                assert(rs[w] is Data);
            }
        }
        lemma_json_body_no_data(rs.drop_last());
    }
}

/// Render the answer to one query: a JSON array holding one object per data
/// reply, in the order the replies stand in.
pub fn to_json(replies: &Vec<Reply>) -> (r: String)
    ensures
        r@ == "[\n"@ + json_body(replies@) + "\n]"@,
{
    let mut body = String::new();
    let mut first: bool = true;
    let mut i: usize = 0;
    while i < replies.len()
        invariant
            i <= replies@.len(),
            body@ == json_body(replies@.subrange(0, i as int)),
            first == !has_data(replies@.subrange(0, i as int)),
        decreases replies@.len() - i,
    {
        let ghost pre = replies@.subrange(0, i as int);
        let ghost nxt = replies@.subrange(0, i as int + 1);
        proof {
            assert(nxt.drop_last() =~= pre);
            assert(nxt.last() == replies@[i as int]);
        }
        match &replies[i] {
            Reply::Data { key, value } => {
                if !first {
                    body.append(",\n");
                }
                body.append("{ \"key\": \"");
                body.append(key.as_str());
                body.append("\",\n  \"value\": \"");
                body.append(value.as_str());
                body.append("\",\n  \"time\": \"None\" }");
                first = false;
                proof {
                    assert(nxt[i as int] is Data);
                    assert(has_data(nxt));
                    if !has_data(pre) {
                        lemma_json_body_no_data(pre);
                    }
                    assert(body@ =~= json_body(nxt));
                }
            },
            Reply::Other => {
                proof {
                    assert(has_data(nxt) == has_data(pre)) by {
                        if has_data(nxt) {
                            let w = choose|w: int| 0 <= w < nxt.len() && nxt[w] is Data;
                            assert(pre[w] is Data);
                        }
                        if has_data(pre) {
                            let w = choose|w: int| 0 <= w < pre.len() && pre[w] is Data;
                            assert(nxt[w] is Data);
                        }
                    }
                }
            },
        }
        i = i + 1;
    }
    proof {
        assert(replies@.subrange(0, replies@.len() as int) =~= replies@);
    }
    let mut r = String::from_str("[\n");
    r.append(body.as_str());
    r.append("\n]");
    r
}

} // verus!
