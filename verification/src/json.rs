use crate::record::{Record, RecordView, views};
use vstd::prelude::*;

verus! {

// A snapshot is serialized as one JSON payload: an array of objects, each
// with the record's two fields, in declaration order, as JSON strings.
// String contents are escaped the way every common JSON serializer does it:
// `"` and `\` get a backslash, the control bytes 0x08, 0x09, 0x0a, 0x0c and
// 0x0d get their short escapes, every other byte below 0x20 becomes
// `\u00XX` with lowercase hex digits, and everything else (including
// multi-byte UTF-8 sequences) passes through unchanged.

/// Lowercase hexadecimal digit for a nibble.
pub open spec fn hex_digit(n: u8) -> u8 {
    if n < 10 {
        (48 + n) as u8
    } else {
        (87 + n) as u8
    }
}

/// What one byte of string content contributes to the serialized form.
pub open spec fn escape_byte(b: u8) -> Seq<u8> {
    if b == 34 {
        seq![92u8, 34u8]
    } else if b == 92 {
        seq![92u8, 92u8]
    } else if b == 8 {
        seq![92u8, 98u8]
    } else if b == 9 {
        seq![92u8, 116u8]
    } else if b == 10 {
        seq![92u8, 110u8]
    } else if b == 12 {
        seq![92u8, 102u8]
    } else if b == 13 {
        seq![92u8, 114u8]
    } else if b < 32 {
        seq![92u8, 117u8, 48u8, 48u8, hex_digit(b / 16), hex_digit(b % 16)]
    } else {
        seq![b]
    }
}

/// The escaped form of a whole string content.
pub open spec fn escape_bytes(s: Seq<u8>) -> Seq<u8>
    decreases s.len(),
{
    if s.len() == 0 {
        Seq::empty()
    } else {
        escape_bytes(s.drop_last()) + escape_byte(s.last())
    }
}

/// `{"email":"`
pub open spec fn email_prefix() -> Seq<u8> {
    seq![123u8, 34u8, 101u8, 109u8, 97u8, 105u8, 108u8, 34u8, 58u8, 34u8]
}

/// `","password":"`
pub open spec fn password_infix() -> Seq<u8> {
    seq![34u8, 44u8, 34u8, 112u8, 97u8, 115u8, 115u8, 119u8, 111u8, 114u8, 100u8, 34u8, 58u8, 34u8]
}

/// `"}`
pub open spec fn object_suffix() -> Seq<u8> {
    seq![34u8, 125u8]
}

/// The serialized form of one record.
pub open spec fn record_json(r: RecordView) -> Seq<u8> {
    email_prefix() + escape_bytes(r.email) + password_infix() + escape_bytes(r.password)
        + object_suffix()
}

/// The comma-separated serialized forms of a sequence of records.
pub open spec fn records_json(rs: Seq<RecordView>) -> Seq<u8>
    decreases rs.len(),
{
    if rs.len() == 0 {
        Seq::empty()
    } else if rs.len() == 1 {
        record_json(rs[0])
    } else {
        records_json(rs.drop_last()) + seq![44u8] + record_json(rs.last())
    }
}

/// The full snapshot payload: a JSON array of every record, in fetch order.
pub open spec fn snapshot_json(rs: Seq<RecordView>) -> Seq<u8> {
    seq![91u8] + records_json(rs) + seq![93u8]
}

/// An empty collection serializes to exactly `[]`.
pub proof fn lemma_empty_snapshot()
    ensures
        snapshot_json(Seq::empty()) == seq![91u8, 93u8],
{
    assert(snapshot_json(Seq::empty()) =~= seq![91u8, 93u8]);
}

/// Appending one more byte of content appends exactly its escape.
proof fn lemma_escape_bytes_step(s: Seq<u8>, i: int)
    requires
        0 <= i < s.len(),
    ensures
        escape_bytes(s.take(i + 1)) == escape_bytes(s.take(i)) + escape_byte(s[i]),
{
    assert(s.take(i + 1).drop_last() =~= s.take(i));
    assert(s.take(i + 1).last() == s[i]);
}

fn hex_digit_byte(n: u8) -> (r: u8)
    requires
        n < 16,
    ensures
        r == hex_digit(n),
{
    if n < 10 {
        48 + n
    } else {
        87 + n
    }
}

/// Appends the escaped form of `s` to `out`.
fn escape_into(out: &mut Vec<u8>, s: &Vec<u8>)
    ensures
        final(out)@ == old(out)@ + escape_bytes(s@),
{
    let ghost base = out@;
    let mut i: usize = 0;
    while i < s.len()
        invariant
            i <= s@.len(),
            out@ == base + escape_bytes(s@.take(i as int)),
        decreases s@.len() - i,
    {
        let b = s[i];
        proof {
            lemma_escape_bytes_step(s@, i as int);
        }
        if b == 34 {
            out.push(92);
            out.push(34);
        } else if b == 92 {
            out.push(92);
            out.push(92);
        } else if b == 8 {
            out.push(92);
            out.push(98);
        } else if b == 9 {
            out.push(92);
            out.push(116);
        } else if b == 10 {
            out.push(92);
            out.push(110);
        } else if b == 12 {
            out.push(92);
            out.push(102);
        } else if b == 13 {
            out.push(92);
            out.push(114);
        } else if b < 32 {
            out.push(92);
            out.push(117);
            out.push(48);
            out.push(48);
            out.push(hex_digit_byte(b / 16));
            out.push(hex_digit_byte(b % 16));
        } else {
            out.push(b);
        }
        assert(out@ =~= base + escape_bytes(s@.take(i as int)) + escape_byte(s@[i as int]));
        i += 1;
    }
    assert(s@.take(s@.len() as int) =~= s@);
}

/// Appends the serialized form of one record to `out`.
fn record_into(out: &mut Vec<u8>, r: &Record)
    ensures
        final(out)@ == old(out)@ + record_json(r@),
{
    let ghost base = out@;
    out.push(123);
    out.push(34);
    out.push(101);
    out.push(109);
    out.push(97);
    out.push(105);
    out.push(108);
    out.push(34);
    out.push(58);
    out.push(34);
    assert(out@ =~= base + email_prefix());
    escape_into(out, &r.email);
    out.push(34);
    out.push(44);
    out.push(34);
    out.push(112);
    out.push(97);
    out.push(115);
    out.push(115);
    out.push(119);
    out.push(111);
    out.push(114);
    out.push(100);
    out.push(34);
    out.push(58);
    out.push(34);
    assert(out@ =~= base + email_prefix() + escape_bytes(r.email@) + password_infix());
    escape_into(out, &r.password);
    out.push(34);
    out.push(125);
    assert(out@ =~= base + record_json(r@));
}

/// Serializes a full snapshot: every fetched record, in fetch order, as one
/// JSON array payload. Total: serialization of a record never fails.
pub fn snapshot_json_bytes(records: &Vec<Record>) -> (r: Vec<u8>)
    ensures
        r@ == snapshot_json(views(records@)),
{
    let mut out: Vec<u8> = Vec::new();
    out.push(91);
    let mut i: usize = 0;
    while i < records.len()
        invariant
            i <= records@.len(),
            out@ == seq![91u8] + records_json(views(records@).take(i as int)),
        decreases records@.len() - i,
    {
        let ghost rs = views(records@);
        if i > 0 {
            out.push(44);
            record_into(&mut out, &records[i]);
            assert(rs.take(i + 1).drop_last() =~= rs.take(i as int));
            assert(rs.take(i + 1).last() == rs[i as int]);
            assert(out@ =~= seq![91u8] + records_json(rs.take(i + 1)));
        } else {
            record_into(&mut out, &records[i]);
            assert(rs.take(1).len() == 1);
            assert(rs.take(1)[0] == rs[0]);
            assert(out@ =~= seq![91u8] + records_json(rs.take(1)));
        }
        i += 1;
    }
    out.push(93);
    assert(views(records@).take(records@.len() as int) =~= views(records@));
    assert(out@ =~= snapshot_json(views(records@)));
    out
}

} // verus!
