//! The structural checker and the diagnostic pipeline around it. The check
//! capability itself is opaque: it is invoked through a trusted adapter and
//! every violation it reports is normalized into the fixed message
//! convention, run through the formatter, and located inside the document's
//! raw text. Violations are collected eagerly: every problem is surfaced,
//! not just the first.

use crate::LintError;
use crate::Position;
use crate::formatter::extract;
use crate::formatter::spec_extract;
use crate::strutil::spec_lines_of;
use crate::strutil::split_lines;
use vstd::prelude::*;
use vstd::string::*;

verus! {

#[verifier::external_type_specification]
#[verifier::external_body]
pub struct ExValue(serde_json::Value);

/// A document being linted: its path, its raw text, and its parsed value.
/// The caller hands in a value parsed from the same bytes as the text, so
/// positions looked up in the text correspond to the value's structure.
pub struct Document {
    pub path: String,
    pub text: String,
    pub value: serde_json::Value,
}

/// One violation as the check capability reports it: the validator's
/// message and the paths (stored leaf-first) of the document and schema
/// fragments involved.
pub struct RawViolation {
    pub msg: String,
    pub instance_path: Vec<String>,
    pub schema_path: Vec<String>,
}

/// The mathematical content of a `RawViolation`.
pub ghost struct RawViolationView {
    pub msg: Seq<char>,
    pub instance_path: Seq<Seq<char>>,
    pub schema_path: Seq<Seq<char>>,
}

impl View for RawViolation {
    type V = RawViolationView;

    open spec fn view(&self) -> RawViolationView {
        RawViolationView {
            msg: self.msg@,
            instance_path: self.instance_path.deep_view(),
            schema_path: self.schema_path.deep_view(),
        }
    }
}

impl DeepView for RawViolation {
    type V = RawViolationView;

    open spec fn deep_view(&self) -> RawViolationView {
        self.view()
    }
}

/// What the check capability answers for a shape/document pair: every
/// violation of the document against the shape, or the rejection message of
/// a shape the capability itself refuses (either as unloadable or as
/// invalid against its dialect's metaschema). A function of the two values
/// alone: the capability does no I/O and draws on no ambient state.
pub uninterp spec fn check_outcome_of(shape: serde_json::Value, doc: serde_json::Value) -> Result<
    Seq<RawViolationView>,
    Seq<char>,
>;

/// Whether the check capability returns at all on a shape/document pair. A
/// pathological shape description — a reference fragment that is not valid
/// UTF-8 once percent-decoded, or a self-referential reference — makes the
/// capability panic or recurse forever, and which pairs those are is the
/// capability's answer alone. This library's no-panic promise covers only
/// pairs the capability returns on.
pub uninterp spec fn check_returns_on(shape: serde_json::Value, doc: serde_json::Value) -> bool;

/// Relies on jsonschema_valid::Config::from_schema, validate_schema and
/// validate: checking a document against a shape first holds the shape to
/// its dialect's metaschema, then yields every violation, with the
/// validator's message and its leaf-first instance/schema paths; a shape
/// rejected at either step yields a rejection message instead. All of it is
/// a function of the two values alone; the dialect is determined from the
/// shape, as the capability documents. The calls share one body because the
/// configuration borrows the shape value.
#[verifier::external_body]
fn run_check(shape: &serde_json::Value, doc: &serde_json::Value) -> (r: Result<
    Vec<RawViolation>,
    String,
>)
    requires
        check_returns_on(*shape, *doc),
    ensures
        r is Ok || r is Err ==> check_returns_on(*shape, *doc),
        r is Ok <==> check_outcome_of(*shape, *doc) is Ok,
        r is Ok ==> r->Ok_0.deep_view() == check_outcome_of(*shape, *doc)->Ok_0,
        r is Err ==> r->Err_0@ == check_outcome_of(*shape, *doc)->Err_0,
{
    let cfg = match jsonschema_valid::Config::from_schema(shape, None) {
        Ok(c) => c,
        Err(e) => return Err(e.msg),
    };
    if let Err(mut errs) = cfg.validate_schema() {
        return Err(errs.next().map(|e| e.msg).unwrap_or_default());
    }
    let outcome = match jsonschema_valid::validate(&cfg, doc) {
        Ok(()) => Vec::new(),
        Err(errors) => errors.map(
            |e| RawViolation { msg: e.msg, instance_path: e.instance_path, schema_path: e.schema_path },
        ).collect(),
    };
    Ok(outcome)
}

/// Runs the opaque check capability on a document/shape pair, handing the
/// capability's outcome through unchanged: the violations exactly as it
/// reports them, or, for a shape it rejects, that rejection's reason. Two
/// checks of the same pair therefore agree. What comes back is normalized
/// downstream by verified code. The caller owes a pair the capability
/// returns on (`check_returns_on`); on any other pair the capability itself
/// panics or never answers, which no wrapper can mask.
pub fn check_shape(shape: &serde_json::Value, doc: &Document) -> (r: Result<
    Vec<RawViolation>,
    LintError,
>)
    requires
        check_returns_on(*shape, doc.value),
    ensures
        r is Ok <==> check_outcome_of(*shape, doc.value) is Ok,
        r is Ok ==> r->Ok_0.deep_view() == check_outcome_of(*shape, doc.value)->Ok_0,
        r is Err ==> (r->Err_0 matches LintError::BadShape { reason } && reason@
            == check_outcome_of(*shape, doc.value)->Err_0),
{
    match run_check(shape, &doc.value) {
        Ok(v) => Ok(v),
        Err(reason) => Err(LintError::BadShape { reason }),
    }
}

#[verifier::external_type_specification]
#[verifier::external_body]
pub struct ExPositions(lincolns::Positions);

/// The position table a text parses to, when it parses at all: for each JSON
/// pointer, the (line, column) pair the capability records for it. A
/// function of the text alone.
pub uninterp spec fn positions_of(content: Seq<char>) -> Option<
    Map<Seq<char>, (usize, usize)>,
>;

/// What a position table holds.
pub uninterp spec fn positions_index(p: lincolns::Positions) -> Map<Seq<char>, (usize, usize)>;

/// Relies on lincolns::from_str: the position table of a text depends on the
/// text alone; a text that does not parse yields none.
#[verifier::external_body]
fn parse_positions(content: &str) -> (r: Option<lincolns::Positions>)
    ensures
        r is Some <==> positions_of(content@) is Some,
        r is Some ==> positions_index(r->0) == positions_of(content@)->0,
{
    lincolns::from_str(content).ok()
}

/// Relies on lincolns::Positions::get: the pair stored for a JSON pointer,
/// or none when the table holds no such pointer.
#[verifier::external_body]
fn position_at(p: &lincolns::Positions, pointer: &str) -> (r: Option<(usize, usize)>)
    ensures
        r is Some <==> positions_index(*p).dom().contains(pointer@),
        r is Some ==> r->0 == positions_index(*p)[pointer@],
{
    p.get(pointer).map(|pos| (pos.line, pos.col))
}

/// The position a pointer lookup in a text resolves to: the recorded pair,
/// accepted only when its line lies inside the text (1-based) and its
/// 0-based column can be shifted to 1-based.
pub open spec fn spec_located(content: Seq<char>, pointer: Seq<char>) -> Option<Position> {
    match positions_of(content) {
        None => None,
        Some(m) => if m.dom().contains(pointer) {
            if 1 <= m[pointer].0 && m[pointer].0 <= spec_lines_of(content).len() && m[pointer].1
                < usize::MAX {
                Some(Position { line: m[pointer].0, col: (m[pointer].1 + 1) as usize })
            } else {
                None
            }
        } else {
            None
        },
    }
}

/// Looks a JSON pointer up in the document text, yielding a validated
/// 1-based position inside the text.
pub fn locate(content: &str, pointer: &str) -> (r: Option<Position>)
    ensures
        r == spec_located(content@, pointer@),
        r is Some ==> (r->0).wf() && (r->0).line <= spec_lines_of(content@).len(),
{
    let lines = split_lines(content);
    let nlines = lines.len();
    match parse_positions(content) {
        None => None,
        Some(p) => match position_at(&p, pointer) {
            None => None,
            Some((l, c)) => {
                if l >= 1 && l <= nlines && c < usize::MAX {
                    Some(Position { line: l, col: c + 1 })
                } else {
                    None
                }
            },
        },
    }
}

/// The JSON-pointer rendering of a leaf-first path: `/` alone for the empty
/// path, else one `/`-prefixed step per component, outermost first.
pub open spec fn spec_pointer_tail(parts: Seq<Seq<char>>) -> Seq<char>
    decreases parts.len(),
{
    if parts.len() == 0 {
        Seq::empty()
    } else {
        seq!['/'] + parts.last() + spec_pointer_tail(parts.drop_last())
    }
}

/// The JSON pointer of a leaf-first path.
pub open spec fn spec_pointer_of(parts: Seq<Seq<char>>) -> Seq<char> {
    if parts.len() == 0 {
        "/"@
    } else {
        spec_pointer_tail(parts)
    }
}

/// Renders a leaf-first path as a JSON pointer.
pub fn pointer_of_path(parts: &Vec<String>) -> (r: String)
    ensures
        r@ == spec_pointer_of(parts.deep_view()),
{
    let n = parts.len();
    if n == 0 {
        return String::from_str("/");
    }
    let slash: &str = "/";
    proof {
        reveal_strlit("/");
        assert(slash@ =~= seq!['/']);
    }
    let mut s = String::new();
    let ghost pv = parts.deep_view();
    let mut k: usize = 0;
    proof {
        assert(pv.take(n as int) =~= pv);
        assert(s@ + spec_pointer_tail(pv) =~= spec_pointer_tail(pv));
    }
    while k < n
        invariant
            n == parts.len(),
            pv == parts.deep_view(),
            n >= 1,
            k <= n,
            slash@ == seq!['/'],
            spec_pointer_tail(pv) == s@ + spec_pointer_tail(pv.take((n - k) as int)),
        decreases n - k,
    {
        let ghost pre = pv.take((n - k) as int);
        proof {
            assert(pre.last() == pv[n - k - 1]);
            assert(pre.drop_last() =~= pv.take((n - k - 1) as int));
            assert(pv[n - k - 1] == parts@[n - k - 1]@);
        }
        let ghost s_old = s@;
        s.append(slash);
        s.append(parts[n - 1 - k].as_str());
        proof {
            assert(spec_pointer_tail(pre) =~= seq!['/'] + pv[n - k - 1] + spec_pointer_tail(
                pv.take((n - k - 1) as int),
            ));
            assert(s@ =~= s_old + seq!['/'] + pv[n - k - 1]);
            assert(s@ + spec_pointer_tail(pv.take((n - k - 1) as int)) =~= s_old
                + spec_pointer_tail(pre));
        }
        k += 1;
    }
    proof {
        assert(pv.take(0) =~= Seq::<Seq<char>>::empty());
        assert(spec_pointer_tail(pv.take(0)) =~= Seq::<char>::empty());
        assert(s@ + spec_pointer_tail(pv.take(0)) =~= s@);
    }
    s
}

/// The convention message a raw violation is normalized to.
pub open spec fn spec_message_of(v: RawViolationView) -> Seq<char> {
    "At \""@ + spec_pointer_of(v.instance_path) + "\" with schema at \""@ + spec_pointer_of(
        v.schema_path,
    ) + "\": \""@ + v.msg + "\""@
}

/// Normalizes a raw violation into the fixed message convention
/// `At "<field path>" with schema at "<schema path>": "<reason>"`.
pub fn assemble_message(v: &RawViolation) -> (r: String)
    ensures
        r@ == spec_message_of(v@),
{
    let mut s = String::from_str("At \"");
    let ptr = pointer_of_path(&v.instance_path);
    s.append(ptr.as_str());
    s.append("\" with schema at \"");
    let sptr = pointer_of_path(&v.schema_path);
    s.append(sptr.as_str());
    s.append("\": \"");
    s.append(v.msg.as_str());
    s.append("\"");
    proof {
        assert(s@ =~= spec_message_of(v@));
    }
    s
}

/// One formatted, located violation, ready to report.
pub struct Diagnostic {
    /// The catalog entry the shape came from, or none for an explicit shape.
    pub label: Option<String>,
    /// The field path the violation points at.
    pub field: String,
    /// The validator's reason.
    pub reason: String,
    /// `<field>: <reason>`, the clean user-facing message.
    pub message: String,
    /// Where the violation sits in the document text, when the text records
    /// a position for the field.
    pub position: Option<Position>,
}

/// Formats and locates every raw violation of one document/shape pair, in
/// order, dropping none. A message outside the convention aborts loudly.
pub fn diagnose(content: &str, label: &Option<String>, raw: &Vec<RawViolation>) -> (r: Result<
    Vec<Diagnostic>,
    LintError,
>)
    ensures
        r is Ok <==> (forall|i: int|
            0 <= i < raw.len() ==> spec_extract(
                spec_message_of(#[trigger] raw.deep_view()[i]),
            ) is Some),
        r is Ok ==> r->Ok_0.len() == raw.len(),
        r is Ok ==> forall|i: int|
            0 <= i < raw.len() ==> {
                let m = spec_message_of(raw.deep_view()[i]);
                let fr = spec_extract(m)->0;
                &&& (#[trigger] r->Ok_0@[i]).field@ == fr.0
                &&& r->Ok_0@[i].reason@ == fr.1
                &&& r->Ok_0@[i].message@ == fr.0 + ": "@ + fr.1
                &&& r->Ok_0@[i].label.deep_view() == label.deep_view()
                &&& r->Ok_0@[i].position == spec_located(
                    content@,
                    spec_pointer_of(raw.deep_view()[i].instance_path),
                )
            },
        r is Err ==> (r->Err_0 matches LintError::BadMessage { message } && exists|i: int|
            0 <= i < raw.len() && spec_extract(
                spec_message_of(#[trigger] raw.deep_view()[i]),
            ) is None && message@ == spec_message_of(raw.deep_view()[i])),
{
    let n = raw.len();
    let mut out: Vec<Diagnostic> = Vec::new();
    let mut k: usize = 0;
    while k < n
        invariant
            n == raw.len(),
            k <= n,
            out.len() == k,
            forall|i: int|
                0 <= i < k ==> spec_extract(
                    spec_message_of(#[trigger] raw.deep_view()[i]),
                ) is Some,
            forall|i: int|
                0 <= i < k ==> {
                    let m = spec_message_of(raw.deep_view()[i]);
                    let fr = spec_extract(m)->0;
                    &&& (#[trigger] out@[i]).field@ == fr.0
                    &&& out@[i].reason@ == fr.1
                    &&& out@[i].message@ == fr.0 + ": "@ + fr.1
                    &&& out@[i].label.deep_view() == label.deep_view()
                    &&& out@[i].position == spec_located(
                        content@,
                        spec_pointer_of(raw.deep_view()[i].instance_path),
                    )
                },
        decreases n - k,
    {
        let v = &raw[k];
        proof {
            assert(v@ == raw.deep_view()[k as int]);
        }
        let msg = assemble_message(v);
        match extract(msg.as_str()) {
            None => {
                return Err(LintError::BadMessage { message: msg });
            },
            Some((field, reason)) => {
                let mut fm = field.clone();
                fm.append(": ");
                fm.append(reason.as_str());
                let ptr = pointer_of_path(&v.instance_path);
                let position = locate(content, ptr.as_str());
                let lab = match label {
                    Some(s) => Some(s.clone()),
                    None => None,
                };
                proof {
                    assert(lab.deep_view() == label.deep_view());
                }
                out.push(Diagnostic { label: lab, field, reason, message: fm, position });
            },
        }
        k += 1;
    }
    Ok(out)
}

/// The exit status of a whole run: success exactly when no violation was
/// found anywhere and no fatal error occurred.
pub fn exit_status(violations: usize, fatal: bool) -> (r: i32)
    ensures
        r == 0 <==> (violations == 0 && !fatal),
        r == 0 || r == 1,
{
    if violations == 0 && !fatal {
        0
    } else {
        1
    }
}

} // verus!
