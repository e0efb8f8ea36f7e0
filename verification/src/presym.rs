use vstd::prelude::*;
use vstd::string::StringSliceAdditionalSpecFns;
use vstd::utf8::encode_utf8;
use crate::text::{spec_decimal, spec_starts_with, starts_with, to_decimal};

verus! {

/// An error of the presym components.
#[derive(Debug, Clone, Copy, PartialEq, Eq, Structural)]
pub enum PresymError {
    /// One table's opening was met while the other table was still open: the
    /// structural assumption about the generated header broke.
    TableOverlap,
    /// A name's byte length does not fit the length table's entry type.
    NameTooLong,
}

/// The views of a sequence of strings.
pub open spec fn views_of(ss: Seq<String>) -> Seq<Seq<char>> {
    ss.map_values(|t: String| t@)
}

proof fn lemma_views_push(es: Seq<String>, x: String)
    ensures
        views_of(es.push(x)) == views_of(es).push(x@),
{
    assert(views_of(es.push(x)) =~= views_of(es).push(x@));
}

/// The index of the first newline in `s`, or `s.len()` when there is none.
pub open spec fn first_newline(s: Seq<char>) -> int
    decreases s.len(),
{
    if s.len() == 0 {
        0
    } else if s[0] == '\n' {
        0
    } else {
        1 + first_newline(s.drop_first())
    }
}

proof fn lemma_first_newline(s: Seq<char>)
    ensures
        0 <= first_newline(s) <= s.len(),
        first_newline(s) < s.len() ==> s[first_newline(s)] == '\n',
        forall|j: int| 0 <= j < first_newline(s) ==> s[j] != '\n',
    decreases s.len(),
{
    if s.len() == 0 {
    } else if s[0] == '\n' {
    } else {
        lemma_first_newline(s.drop_first());
        assert forall|j: int| 0 <= j < first_newline(s) implies s[j] != '\n' by {
            if j > 0 {
                assert(s.drop_first()[j - 1] == s[j]);
            }
        }
        if first_newline(s) < s.len() {
            assert(s.drop_first()[first_newline(s) - 1] == s[first_newline(s)]);
        }
    }
}

/// A line with a single trailing carriage return removed.
pub open spec fn strip_cr(l: Seq<char>) -> Seq<char> {
    if l.len() > 0 && l[l.len() - 1] == '\r' {
        l.drop_last()
    } else {
        l
    }
}

/// The lines of `s`: split at newlines, a carriage return directly before a
/// newline is dropped, and a final unterminated fragment is a line of its
/// own.
pub open spec fn spec_lines(s: Seq<char>) -> Seq<Seq<char>>
    decreases s.len(),
    via spec_lines_decreases
{
    if s.len() == 0 {
        Seq::<Seq<char>>::empty()
    } else {
        let k = first_newline(s);
        if k == s.len() {
            seq![s]
        } else {
            seq![strip_cr(s.subrange(0, k))] + spec_lines(s.subrange(k + 1, s.len() as int))
        }
    }
}

#[via_fn]
proof fn spec_lines_decreases(s: Seq<char>) {
    lemma_first_newline(s);
}

/// Split a header text into its lines.
pub fn split_lines(s: &str) -> (r: Vec<String>)
    ensures
        views_of(r@) == spec_lines(s@),
{
    let n = s.unicode_len();
    let mut r: Vec<String> = Vec::new();
    proof {
        assert(s@.subrange(0, n as int) =~= s@);
        assert(views_of(r@) + spec_lines(s@) =~= spec_lines(s@));
    }
    let mut start: usize = 0;
    let mut i: usize = 0;
    while i < n
        invariant
            n == s@.len(),
            start <= i <= n,
            forall|j: int| start <= j < i ==> s@[j] != '\n',
            spec_lines(s@) == views_of(r@) + spec_lines(s@.subrange(start as int, n as int)),
        decreases n - i,
    {
        if s.get_char(i) == '\n' {
            let end = if i > start && s.get_char(i - 1) == '\r' {
                i - 1
            } else {
                i
            };
            let piece = s.substring_char(start, end);
            let owned = piece.to_owned();
            proof {
                let t = s@.subrange(start as int, n as int);
                let k = i - start;
                lemma_first_newline(t);
                assert(t[k as int] == s@[i as int]);
                if first_newline(t) < k {
                    assert(t[first_newline(t)] == '\n');
                    assert(s@[start + first_newline(t)] != '\n');
                    assert(false);
                }
                if first_newline(t) > k {
                    assert(false);
                }
                assert(first_newline(t) == k as int);
                assert(t.subrange(0, k as int) =~= s@.subrange(start as int, i as int));
                assert(strip_cr(t.subrange(0, k as int)) =~= owned@);
                assert(t.subrange(k + 1, t.len() as int) =~= s@.subrange(
                    i + 1,
                    n as int,
                ));
                lemma_views_push(r@, owned);
                assert(spec_lines(t) == seq![owned@] + spec_lines(
                    s@.subrange(i + 1, n as int),
                ));
                assert(views_of(r@.push(owned)) + spec_lines(s@.subrange(i + 1, n as int)) =~= (
                views_of(r@) + spec_lines(t)));
            }
            r.push(owned);
            start = i + 1;
        }
        i += 1;
    }
    if start < n {
        let piece = s.substring_char(start, n);
        let owned = piece.to_owned();
        proof {
            let t = s@.subrange(start as int, n as int);
            lemma_first_newline(t);
            if first_newline(t) < t.len() {
                assert(t[first_newline(t)] == '\n');
                assert(s@[start + first_newline(t)] != '\n');
                assert(false);
            }
            assert(t =~= owned@);
            assert(spec_lines(t) == seq![owned@]);
            lemma_views_push(r@, owned);
            assert(views_of(r@.push(owned)) =~= views_of(r@) + spec_lines(t));
        }
        r.push(owned);
    } else {
        proof {
            assert(s@.subrange(start as int, n as int).len() == 0);
            assert(views_of(r@) + spec_lines(s@.subrange(start as int, n as int)) =~= views_of(
                r@,
            ));
        }
    }
    r
}

/// The state of the line scanner: which table is open, the lines captured
/// for each, and whether the mutual-exclusion assumption still holds.
#[verifier::ext_equal]
pub ghost struct ScanState {
    pub in_length: bool,
    pub in_name: bool,
    pub length_lines: Seq<Seq<char>>,
    pub name_lines: Seq<Seq<char>>,
    pub ok: bool,
}

/// The scanner's starting state.
pub open spec fn initial_scan_state() -> ScanState {
    ScanState {
        in_length: false,
        in_name: false,
        length_lines: Seq::<Seq<char>>::empty(),
        name_lines: Seq::<Seq<char>>::empty(),
        ok: true,
    }
}

/// The exact declaration prefix that opens the length table.
pub open spec fn length_open() -> Seq<char> {
    "static const uint16_t presym_length_table[]"@
}

/// The exact declaration prefix that opens the name table.
pub open spec fn name_open() -> Seq<char> {
    "static const char * const presym_name_table[]"@
}

/// The delimiter that closes either table.
pub open spec fn table_close() -> Seq<char> {
    "}"@
}

/// One step of the scanner. A closing delimiter leaves the open table; an
/// opening declaration enters its table, and breaks the scan if the other
/// table is still open; any other line met inside a table is captured as is.
pub open spec fn scan_step(st: ScanState, line: Seq<char>) -> ScanState {
    if !st.ok {
        st
    } else {
        let st1 = if st.in_length && spec_starts_with(line, table_close()) {
            ScanState { in_length: false, ..st }
        } else if st.in_name && spec_starts_with(line, table_close()) {
            ScanState { in_name: false, ..st }
        } else {
            st
        };
        if spec_starts_with(line, length_open()) {
            if st1.in_name {
                ScanState { ok: false, ..st1 }
            } else {
                ScanState { in_length: true, ..st1 }
            }
        } else if spec_starts_with(line, name_open()) {
            if st1.in_length {
                ScanState { ok: false, ..st1 }
            } else {
                ScanState { in_name: true, ..st1 }
            }
        } else if st1.in_length {
            ScanState { length_lines: st1.length_lines.push(line), ..st1 }
        } else if st1.in_name {
            ScanState { name_lines: st1.name_lines.push(line), ..st1 }
        } else {
            st1
        }
    }
}

/// The scanner's state after the first `i` lines.
pub open spec fn scan_upto(lines: Seq<Seq<char>>, i: int) -> ScanState
    decreases i,
{
    if i <= 0 {
        initial_scan_state()
    } else {
        scan_step(scan_upto(lines, i - 1), lines[i - 1])
    }
}

/// The scanner's state after all lines.
pub open spec fn scan(lines: Seq<Seq<char>>) -> ScanState {
    scan_upto(lines, lines.len() as int)
}

proof fn lemma_scan_stuck(lines: Seq<Seq<char>>, i: int, j: int)
    requires
        0 <= i <= j,
        !scan_upto(lines, i).ok,
    ensures
        !scan_upto(lines, j).ok,
    decreases j - i,
{
    if i < j {
        lemma_scan_stuck(lines, i, j - 1);
    }
}

/// As long as the scan is ok, its two modes are mutually exclusive: at no
/// point of the scan are both tables open at once. An opening met while the
/// other table is open does not leave the scan ok.
pub proof fn lemma_scan_modes_exclusive(lines: Seq<Seq<char>>, i: int)
    requires
        0 <= i,
    ensures
        scan_upto(lines, i).ok ==> !(scan_upto(lines, i).in_length && scan_upto(
            lines,
            i,
        ).in_name),
    decreases i,
{
    if i > 0 {
        lemma_scan_modes_exclusive(lines, i - 1);
    }
}

/// The captured lines of one table, each indented and newline-terminated.
pub open spec fn spec_body_lines(entries: Seq<Seq<char>>) -> Seq<char>
    decreases entries.len(),
{
    if entries.len() == 0 {
        Seq::<char>::empty()
    } else {
        spec_body_lines(entries.drop_last()) + "  "@ + entries.last() + "\n"@
    }
}

/// The emitted declaration of the length table.
pub open spec fn spec_length_part(entries: Seq<Seq<char>>) -> Seq<char> {
    "/// Presym table length entries.\n"@ + "pub const presym_length_table: [u16; "@
        + spec_decimal(entries.len()) + "] = [\n"@ + spec_body_lines(entries) + "];\n"@
}

/// The emitted declaration of the name table.
pub open spec fn spec_name_part(entries: Seq<Seq<char>>) -> Seq<char> {
    "/// Presym name table entries.\n"@ + "pub const presym_name_table: [&'static str; "@
        + spec_decimal(entries.len()) + "] = [\n"@ + spec_body_lines(entries) + "];\n"@
}

/// The whole emitted fragment: the length table's declaration, then the name
/// table's.
pub open spec fn spec_emit(length_entries: Seq<Seq<char>>, name_entries: Seq<Seq<char>>) -> Seq<
    char,
> {
    spec_length_part(length_entries) + spec_name_part(name_entries)
}

/// What the transpiler emits for the given header lines.
pub open spec fn spec_transpiled(lines: Seq<Seq<char>>) -> Seq<char> {
    spec_emit(scan(lines).length_lines, scan(lines).name_lines)
}

fn append_body(out: &mut String, entries: &Vec<String>)
    ensures
        final(out)@ == old(out)@ + spec_body_lines(views_of(entries@)),
{
    let mut j: usize = 0;
    while j < entries.len()
        invariant
            j <= entries@.len(),
            out@ == old(out)@ + spec_body_lines(views_of(entries@).take(j as int)),
        decreases entries@.len() - j,
    {
        out.append("  ");
        out.append(entries[j].as_str());
        out.append("\n");
        proof {
            let v = views_of(entries@);
            assert(v.take(j + 1).drop_last() =~= v.take(j as int));
            assert(v.take(j + 1).last() == v[j as int]);
            assert(out@ =~= old(out)@ + spec_body_lines(v.take(j + 1)));
        }
        j += 1;
    }
    proof {
        assert(views_of(entries@).take(entries@.len() as int) =~= views_of(entries@));
    }
}

/// Transpile the lines of a generated presym table header into the target
/// source fragment. Succeeds exactly when no table opening is met while the
/// other table is still open; the one failure is that structural violation.
pub fn transpile_lines(lines: &Vec<String>) -> (r: Result<String, PresymError>)
    ensures
        scan(views_of(lines@)).ok <==> r is Ok,
        r matches Ok(out) ==> out@ == spec_transpiled(views_of(lines@)),
        r matches Err(e) ==> e == PresymError::TableOverlap,
{
    let ghost lv = views_of(lines@);
    let mut in_length = false;
    let mut in_name = false;
    let mut length_entries: Vec<String> = Vec::new();
    let mut name_entries: Vec<String> = Vec::new();
    let mut i: usize = 0;
    while i < lines.len()
        invariant
            i <= lines@.len(),
            lv == views_of(lines@),
            scan_upto(lv, i as int) == (ScanState {
                in_length,
                in_name,
                length_lines: views_of(length_entries@),
                name_lines: views_of(name_entries@),
                ok: true,
            }),
        decreases lines@.len() - i,
    {
        let line = &lines[i];
        proof {
            assert(lv[i as int] == line@);
        }
        let ghost pre = scan_upto(lv, i as int);
        if in_length && starts_with(line.as_str(), "}") {
            in_length = false;
        } else if in_name && starts_with(line.as_str(), "}") {
            in_name = false;
        }
        if starts_with(line.as_str(), "static const uint16_t presym_length_table[]") {
            if in_name {
                proof {
                    assert(scan_upto(lv, i + 1) == scan_step(pre, lv[i as int]));
                    assert(!scan_upto(lv, i + 1).ok);
                    lemma_scan_stuck(lv, i + 1, lv.len() as int);
                }
                return Err(PresymError::TableOverlap);
            }
            in_length = true;
        } else if starts_with(line.as_str(), "static const char * const presym_name_table[]") {
            if in_length {
                proof {
                    assert(scan_upto(lv, i + 1) == scan_step(pre, lv[i as int]));
                    assert(!scan_upto(lv, i + 1).ok);
                    lemma_scan_stuck(lv, i + 1, lv.len() as int);
                }
                return Err(PresymError::TableOverlap);
            }
            in_name = true;
        } else if in_length {
            proof {
                lemma_views_push(length_entries@, *line);
            }
            length_entries.push(line.clone());
        } else if in_name {
            proof {
                lemma_views_push(name_entries@, *line);
            }
            name_entries.push(line.clone());
        }
        proof {
            assert(scan_upto(lv, i + 1) == scan_step(pre, lv[i as int]));
            assert(scan_upto(lv, i + 1) =~= (ScanState {
                in_length,
                in_name,
                length_lines: views_of(length_entries@),
                name_lines: views_of(name_entries@),
                ok: true,
            }));
        }
        i += 1;
    }
    let mut out = String::new();
    out.append("/// Presym table length entries.\n");
    out.append("pub const presym_length_table: [u16; ");
    let d = to_decimal(length_entries.len() as u64);
    out.append(d.as_str());
    out.append("] = [\n");
    append_body(&mut out, &length_entries);
    out.append("];\n");
    out.append("/// Presym name table entries.\n");
    out.append("pub const presym_name_table: [&'static str; ");
    let d2 = to_decimal(name_entries.len() as u64);
    out.append(d2.as_str());
    out.append("] = [\n");
    append_body(&mut out, &name_entries);
    out.append("];\n");
    proof {
        assert(views_of(length_entries@).len() == length_entries@.len());
        assert(views_of(name_entries@).len() == name_entries@.len());
        assert(out@ =~= spec_transpiled(lv));
    }
    Ok(out)
}

/// Transpile a generated presym table header into the target source
/// fragment: scan the text line by line, capture the two tables' lines, and
/// emit the two declarations with the counts of their captured lines.
pub fn transpile(header: &str) -> (r: Result<String, PresymError>)
    ensures
        scan(spec_lines(header@)).ok <==> r is Ok,
        r matches Ok(out) ==> out@ == spec_transpiled(spec_lines(header@)),
        r matches Err(e) ==> e == PresymError::TableOverlap,
{
    let lines = split_lines(header);
    transpile_lines(&lines)
}

/// The transpiled fragment is the length table's declaration followed by the
/// name table's; each declares its array with the decimal of its own
/// captured line count, so the two sizes are independent of each other,
/// whether or not the counts agree.
pub proof fn lemma_transpiled_sizes(lines: Seq<Seq<char>>)
    ensures
        spec_transpiled(lines) == spec_length_part(scan(lines).length_lines) + spec_name_part(
            scan(lines).name_lines,
        ),
        spec_length_part(scan(lines).length_lines) == "/// Presym table length entries.\n"@
            + "pub const presym_length_table: [u16; "@ + spec_decimal(
            scan(lines).length_lines.len(),
        ) + "] = [\n"@ + spec_body_lines(scan(lines).length_lines) + "];\n"@,
        spec_name_part(scan(lines).name_lines) == "/// Presym name table entries.\n"@
            + "pub const presym_name_table: [&'static str; "@ + spec_decimal(
            scan(lines).name_lines.len(),
        ) + "] = [\n"@ + spec_body_lines(scan(lines).name_lines) + "];\n"@,
{
}

/// The byte length of a text.
pub open spec fn byte_len(s: Seq<char>) -> nat {
    encode_utf8(s).len()
}

/// A pair of parallel tables: interned-symbol names and their byte lengths.
#[derive(Debug, Clone)]
pub struct PresymTable {
    pub lengths: Vec<u16>,
    pub names: Vec<String>,
}

impl PresymTable {
    /// The central invariant: the two tables have the same count and each
    /// length entry is the byte length of the name at the same index.
    pub open spec fn wf(&self) -> bool {
        self.lengths@.len() == self.names@.len() && forall|i: int|
            0 <= i < self.names@.len() ==> self.lengths@[i] as nat == byte_len(self.names@[i]@)
    }

    /// Build the table for the given names, computing each byte length.
    /// Succeeds exactly when every name's byte length fits the length
    /// table's entry type.
    pub fn new(names: Vec<String>) -> (r: Result<PresymTable, PresymError>)
        requires
            forall|i: int| 0 <= i < names@.len() ==> byte_len(#[trigger] names@[i]@) <= usize::MAX,
        ensures
            (forall|i: int| 0 <= i < names@.len() ==> byte_len(#[trigger] names@[i]@) <= u16::MAX)
                <==> r is Ok,
            r matches Ok(t) ==> t.names == names && t.wf(),
            r matches Err(e) ==> e == PresymError::NameTooLong,
    {
        let mut lengths: Vec<u16> = Vec::new();
        let mut i: usize = 0;
        while i < names.len()
            invariant
                i <= names@.len(),
                lengths@.len() == i,
                forall|j: int|
                    0 <= j < names@.len() ==> byte_len(#[trigger] names@[j]@) <= usize::MAX,
                forall|j: int|
                    0 <= j < i ==> lengths@[j] as nat == byte_len(#[trigger] names@[j]@)
                        && byte_len(names@[j]@) <= u16::MAX,
            decreases names@.len() - i,
        {
            let ns = names[i].as_str();
            let l = ns.len();
            proof {
                assert(ns.spec_bytes() == encode_utf8(names@[i as int]@));
                assert(l == byte_len(names@[i as int]@));
            }
            if l > 65535 {
                return Err(PresymError::NameTooLong);
            }
            lengths.push(l as u16);
            i += 1;
        }
        Ok(PresymTable { lengths, names })
    }
}

/// The parallel-array invariant of a well-formed presym table, spelled out:
/// the counts agree, and each length entry is the byte length of the name at
/// the same index.
pub proof fn lemma_presym_parallel(t: PresymTable)
    requires
        t.wf(),
    ensures
        t.lengths@.len() == t.names@.len(),
        forall|i: int|
            0 <= i < t.names@.len() ==> t.lengths@[i] as nat == byte_len(t.names@[i]@),
{
}

} // verus!
