//! The structured presenter: renders the record set as JSON text.
//!
//! The output schema has, per record, the keys `name`, `state`,
//! `max_mem`, `memory`, `nr_virt_cpu` and `cpu_time`, and the key
//! `ifaces` exactly when interface statistics were collected for that
//! record — the key is absent, not null, when they were not.

use vstd::prelude::*;
use vstd::string::StrSliceExecFns;
use vstd::string::StringExecFns;
use crate::numfmt::spec_digit;
use crate::numfmt::spec_i_dec;
use crate::numfmt::spec_u_dec;
use crate::numfmt::i64_dec;
use crate::numfmt::u64_dec;
use crate::records::DomainOutput;
use crate::records::IfaceStats;

verus! {

/// The lowercase hexadecimal digit character for a value below sixteen.
pub open spec fn spec_hex_digit(d: int) -> char {
    if d < 10 {
        spec_digit(d)
    } else if d == 10 {
        'a'
    } else if d == 11 {
        'b'
    } else if d == 12 {
        'c'
    } else if d == 13 {
        'd'
    } else if d == 14 {
        'e'
    } else {
        'f'
    }
}

/// How one character appears inside a JSON string literal: quote and
/// backslash are escaped, control characters use the `\u00XX` form, and
/// every other character stands as itself.
pub open spec fn esc_char(c: char) -> Seq<char> {
    if c == '"' {
        seq!['\\', '"']
    } else if c == '\\' {
        seq!['\\', '\\']
    } else if (c as int) < 32 {
        seq!['\\', 'u', '0', '0', spec_hex_digit(c as int / 16), spec_hex_digit(c as int % 16)]
    } else {
        seq![c]
    }
}

/// A character sequence with every character escaped for JSON.
pub open spec fn json_escape(s: Seq<char>) -> Seq<char>
    decreases s.len(),
{
    if s.len() == 0 {
        Seq::empty()
    } else {
        json_escape(s.drop_last()) + esc_char(s.last())
    }
}

/// A JSON string literal: the escaped characters between quotes.
pub open spec fn json_string(s: Seq<char>) -> Seq<char> {
    seq!['"'] + json_escape(s) + seq!['"']
}

/// The comma-separated elements of a JSON array of strings.
pub open spec fn str_array_body(xs: Seq<Seq<char>>) -> Seq<char>
    decreases xs.len(),
{
    if xs.len() == 0 {
        Seq::empty()
    } else if xs.len() == 1 {
        json_string(xs[0])
    } else {
        str_array_body(xs.drop_last()) + seq![','] + json_string(xs.last())
    }
}

/// A JSON array of strings.
pub open spec fn json_str_array(xs: Seq<Seq<char>>) -> Seq<char> {
    seq!['['] + str_array_body(xs) + seq![']']
}

/// One collected interface as a JSON object.
pub open spec fn json_iface(f: IfaceStats) -> Seq<char> {
    "{\"name\":"@ + json_string(f.name@) + ",\"addresses\":"@ + json_str_array(
        f.addresses.deep_view(),
    ) + ",\"rx_bytes\":"@ + spec_i_dec(f.rx_bytes as int) + ",\"tx_bytes\":"@ + spec_i_dec(
        f.tx_bytes as int,
    ) + seq!['}']
}

/// The comma-separated elements of the `ifaces` array.
pub open spec fn iface_array_body(fs: Seq<IfaceStats>) -> Seq<char>
    decreases fs.len(),
{
    if fs.len() == 0 {
        Seq::empty()
    } else if fs.len() == 1 {
        json_iface(fs[0])
    } else {
        iface_array_body(fs.drop_last()) + seq![','] + json_iface(fs.last())
    }
}

/// The six core fields of one record, without the closing brace.
pub open spec fn json_record_core(r: DomainOutput) -> Seq<char> {
    "{\"name\":"@ + json_string(r.name@) + ",\"state\":"@ + json_string(r.state.spec_label())
        + ",\"max_mem\":"@ + spec_u_dec(r.max_mem as nat) + ",\"memory\":"@ + spec_u_dec(
        r.memory as nat,
    ) + ",\"nr_virt_cpu\":"@ + spec_u_dec(r.num_virt_cpus as nat) + ",\"cpu_time\":"@ + spec_u_dec(
        r.cpu_time as nat,
    )
}

/// The `ifaces` member of one record: absent when statistics were not
/// collected, an array (possibly empty) when they were.
pub open spec fn json_ifaces_part(o: Option<Vec<IfaceStats>>) -> Seq<char> {
    match o {
        Option::None => Seq::empty(),
        Option::Some(fs) => ",\"ifaces\":["@ + iface_array_body(fs@) + seq![']'],
    }
}

/// One record as a JSON object.
pub open spec fn json_record(r: DomainOutput) -> Seq<char> {
    json_record_core(r) + json_ifaces_part(r.ifaces) + seq!['}']
}

/// The comma-separated elements of the top-level array.
pub open spec fn records_body(rs: Seq<DomainOutput>) -> Seq<char>
    decreases rs.len(),
{
    if rs.len() == 0 {
        Seq::empty()
    } else if rs.len() == 1 {
        json_record(rs[0])
    } else {
        records_body(rs.drop_last()) + seq![','] + json_record(rs.last())
    }
}

/// The whole structured output: a JSON array of record objects.
pub open spec fn spec_render_json(rs: Seq<DomainOutput>) -> Seq<char> {
    seq!['['] + records_body(rs) + seq![']']
}

/// Law: a record whose interfaces were not collected serializes without
/// an `ifaces` key — its text is exactly the six core fields; a record
/// whose interfaces were collected carries the `ifaces` array, which is
/// `[]` when the collected sequence is empty.
pub proof fn lemma_ifaces_key_presence(r: DomainOutput)
    ensures
        r.ifaces is None ==> json_record(r) == json_record_core(r) + seq!['}'],
        r.ifaces is Some ==> json_record(r) == json_record_core(r) + ",\"ifaces\":["@
            + iface_array_body(r.ifaces->0@) + seq![']'] + seq!['}'],
{
    match r.ifaces {
        Option::None => {
            assert(json_record(r) =~= json_record_core(r) + seq!['}']);
        },
        Option::Some(fs) => {
            assert(json_record(r) =~= json_record_core(r) + ",\"ifaces\":["@ + iface_array_body(
                fs@,
            ) + seq![']'] + seq!['}']);
        },
    }
}

/// The one-character string for a hexadecimal digit.
fn hex_digit_str(d: u32) -> (r: &'static str)
    requires
        d < 16,
    ensures
        r@ == seq![spec_hex_digit(d as int)],
{
    let r: &'static str = match d {
        0 => "0",
        1 => "1",
        2 => "2",
        3 => "3",
        4 => "4",
        5 => "5",
        6 => "6",
        7 => "7",
        8 => "8",
        9 => "9",
        10 => "a",
        11 => "b",
        12 => "c",
        13 => "d",
        14 => "e",
        _ => "f",
    };
    proof {
        reveal_strlit("0");
        reveal_strlit("1");
        reveal_strlit("2");
        reveal_strlit("3");
        reveal_strlit("4");
        reveal_strlit("5");
        reveal_strlit("6");
        reveal_strlit("7");
        reveal_strlit("8");
        reveal_strlit("9");
        reveal_strlit("a");
        reveal_strlit("b");
        reveal_strlit("c");
        reveal_strlit("d");
        reveal_strlit("e");
        reveal_strlit("f");
        assert(r@ =~= seq![spec_hex_digit(d as int)]);
    }
    r
}

/// Appends the JSON-escaped characters of `s`.
fn append_escaped(out: &mut String, s: &str)
    ensures
        final(out)@ == old(out)@ + json_escape(s@),
{
    let ghost base = out@;
    let n = s.unicode_len();
    let mut i: usize = 0;
    while i < n
        invariant
            n == s@.len(),
            i <= n,
            out@ == base + json_escape(s@.take(i as int)),
        decreases n - i,
    {
        let c = s.get_char(i);
        if c == '"' {
            out.append("\\\"");
            proof {
                reveal_strlit("\\\"");
                assert(out@ =~= base + json_escape(s@.take(i as int)) + esc_char(c));
            }
        } else if c == '\\' {
            out.append("\\\\");
            proof {
                reveal_strlit("\\\\");
                assert(out@ =~= base + json_escape(s@.take(i as int)) + esc_char(c));
            }
        } else if (c as u32) < 32 {
            out.append("\\u00");
            let v = c as u32;
            out.append(hex_digit_str(v / 16));
            out.append(hex_digit_str(v % 16));
            proof {
                reveal_strlit("\\u00");
                assert(out@ =~= base + json_escape(s@.take(i as int)) + esc_char(c));
            }
        } else {
            let piece = s.substring_char(i, i + 1);
            out.append(piece);
            proof {
                assert(piece@ =~= seq![s@[i as int]]);
                assert(out@ =~= base + json_escape(s@.take(i as int)) + esc_char(c));
            }
        }
        proof {
            assert(s@.take((i + 1) as int).drop_last() =~= s@.take(i as int));
            assert(s@.take((i + 1) as int).last() == s@[i as int]);
            assert(out@ =~= base + json_escape(s@.take((i + 1) as int)));
        }
        i = i + 1;
    }
    proof {
        assert(s@.take(n as int) =~= s@);
    }
}

/// Appends `s` as a JSON string literal.
fn append_json_string(out: &mut String, s: &str)
    ensures
        final(out)@ == old(out)@ + json_string(s@),
{
    let ghost base = out@;
    out.append("\"");
    append_escaped(out, s);
    out.append("\"");
    proof {
        reveal_strlit("\"");
        assert(out@ =~= base + json_string(s@));
    }
}

/// Appends a JSON array of the given strings.
fn append_str_array(out: &mut String, xs: &Vec<String>)
    ensures
        final(out)@ == old(out)@ + json_str_array(xs.deep_view()),
{
    let ghost base = out@;
    out.append("[");
    let n = xs.len();
    for i in 0..n
        invariant
            n == xs@.len(),
            out@ == base + "["@ + str_array_body(xs.deep_view().take(i as int)),
    {
        if i > 0 {
            out.append(",");
        }
        append_json_string(out, xs[i].as_str());
        proof {
            reveal_strlit(",");
            let vs = xs.deep_view();
            assert(vs.take((i + 1) as int).drop_last() =~= vs.take(i as int));
            assert(vs.take((i + 1) as int).last() == vs[i as int]);
            if i == 0 {
                assert(str_array_body(vs.take(1int)) == json_string(vs[0]));
                assert(out@ =~= base + "["@ + str_array_body(vs.take((i + 1) as int)));
            } else {
                assert(out@ =~= base + "["@ + str_array_body(vs.take((i + 1) as int)));
            }
        }
    }
    out.append("]");
    proof {
        reveal_strlit("[");
        reveal_strlit("]");
        assert(xs.deep_view().take(n as int) =~= xs.deep_view());
        assert(out@ =~= base + json_str_array(xs.deep_view()));
    }
}

/// Appends one collected interface as a JSON object.
fn append_iface(out: &mut String, f: &IfaceStats)
    ensures
        final(out)@ == old(out)@ + json_iface(*f),
{
    let ghost base = out@;
    out.append("{\"name\":");
    append_json_string(out, f.name.as_str());
    out.append(",\"addresses\":");
    append_str_array(out, &f.addresses);
    out.append(",\"rx_bytes\":");
    let rx = i64_dec(f.rx_bytes);
    out.append(rx.as_str());
    out.append(",\"tx_bytes\":");
    let tx = i64_dec(f.tx_bytes);
    out.append(tx.as_str());
    out.append("}");
    proof {
        reveal_strlit("}");
        assert(out@ =~= base + json_iface(*f));
    }
}

/// Appends one record as a JSON object.
fn append_record(out: &mut String, r: &DomainOutput)
    ensures
        final(out)@ == old(out)@ + json_record(*r),
{
    let ghost base = out@;
    out.append("{\"name\":");
    append_json_string(out, r.name.as_str());
    out.append(",\"state\":");
    append_json_string(out, r.state.label());
    out.append(",\"max_mem\":");
    let a = u64_dec(r.max_mem);
    out.append(a.as_str());
    out.append(",\"memory\":");
    let b = u64_dec(r.memory);
    out.append(b.as_str());
    out.append(",\"nr_virt_cpu\":");
    let c = u64_dec(r.num_virt_cpus as u64);
    out.append(c.as_str());
    out.append(",\"cpu_time\":");
    let d = u64_dec(r.cpu_time);
    out.append(d.as_str());
    proof {
        assert(out@ =~= base + json_record_core(*r));
    }
    let ghost with_core = out@;
    match &r.ifaces {
        Option::None => {
            proof {
                assert(out@ =~= with_core + json_ifaces_part(r.ifaces));
            }
        },
        Option::Some(fs) => {
            out.append(",\"ifaces\":[");
            let n = fs.len();
            for i in 0..n
                invariant
                    n == fs@.len(),
                    out@ == with_core + ",\"ifaces\":["@ + iface_array_body(fs@.take(i as int)),
            {
                if i > 0 {
                    out.append(",");
                }
                append_iface(out, &fs[i]);
                proof {
                    reveal_strlit(",");
                    assert(fs@.take((i + 1) as int).drop_last() =~= fs@.take(i as int));
                    assert(fs@.take((i + 1) as int).last() == fs@[i as int]);
                    assert(out@ =~= with_core + ",\"ifaces\":["@ + iface_array_body(
                        fs@.take((i + 1) as int),
                    ));
                }
            }
            out.append("]");
            proof {
                reveal_strlit("]");
                assert(fs@.take(n as int) =~= fs@);
                assert(out@ =~= with_core + json_ifaces_part(r.ifaces));
            }
        },
    }
    out.append("}");
    proof {
        reveal_strlit("}");
        assert(out@ =~= base + json_record(*r));
    }
}

/// Renders the whole record set as a JSON array, one object per record
/// in order.
pub fn render_json(records: &Vec<DomainOutput>) -> (r: String)
    ensures
        r@ == spec_render_json(records@),
{
    let mut out = String::new();
    out.append("[");
    let n = records.len();
    for i in 0..n
        invariant
            n == records@.len(),
            out@ == "["@ + records_body(records@.take(i as int)),
    {
        if i > 0 {
            out.append(",");
        }
        append_record(&mut out, &records[i]);
        proof {
            reveal_strlit(",");
            assert(records@.take((i + 1) as int).drop_last() =~= records@.take(i as int));
            assert(records@.take((i + 1) as int).last() == records@[i as int]);
            assert(out@ =~= "["@ + records_body(records@.take((i + 1) as int)));
        }
    }
    out.append("]");
    proof {
        reveal_strlit("[");
        reveal_strlit("]");
        assert(records@.take(n as int) =~= records@);
        assert(out@ =~= spec_render_json(records@));
    }
    out
}

} // verus!
