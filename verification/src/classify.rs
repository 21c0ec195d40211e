use vstd::prelude::*;
use vstd::utf8::valid_utf8;
use vstd::utf8::valid_first_scalar;
use vstd::utf8::pop_first_scalar;
use vstd::utf8::length_of_first_scalar;
use vstd::utf8::is_leading_byte_width_1;
use crate::engine::iri_ok;
use crate::engine::blank_ok;

verus! {

/// A classified term as a spec value: a tag (0 = IRI, 1 = blank node,
/// 2 = literal) together with the text the term carries, in UTF-8 bytes.
pub type TermModel = (int, Seq<u8>);

/// A quad in the default graph as a spec value: subject, predicate IRI text,
/// object. The graph component is fixed to the default graph and not modelled.
pub type QuadModel = (TermModel, Seq<u8>, TermModel);

/// A typed RDF term produced by the classifier. The text is always valid
/// UTF-8; an IRI's text was accepted by the engine's IRI parser.
pub enum Term {
    Iri(Vec<u8>),
    Blank(Vec<u8>),
    Lit(Vec<u8>),
}

impl Term {
    /// The text this term carries.
    pub open spec fn text(&self) -> Seq<u8> {
        match self {
            Term::Iri(b) => b@,
            Term::Blank(b) => b@,
            Term::Lit(b) => b@,
        }
    }

    /// The term as a tag/text pair.
    pub open spec fn model(&self) -> TermModel {
        match self {
            Term::Iri(b) => (0int, b@),
            Term::Blank(b) => (1int, b@),
            Term::Lit(b) => (2int, b@),
        }
    }

    pub open spec fn wf(&self) -> bool {
        &&& valid_utf8(self.text())
        &&& (self is Iri ==> iri_ok(self.text()))
    }

    /// Whether handing this term to the engine names a fixed node: a blank
    /// node whose label the engine's grammar refuses is replaced by a fresh
    /// engine-chosen identifier instead.
    pub open spec fn deterministic(&self) -> bool {
        self is Blank ==> blank_ok(self.text())
    }
}

/// A validated quad-to-be in the default graph: the subject is an IRI or a
/// blank node, the predicate is an IRI.
pub struct Triple {
    pub subject: Term,
    pub predicate: Vec<u8>,
    pub object: Term,
}

impl Triple {
    pub open spec fn wf(&self) -> bool {
        &&& self.subject.wf()
        &&& !(self.subject is Lit)
        &&& valid_utf8(self.predicate@)
        &&& iri_ok(self.predicate@)
        &&& self.object.wf()
    }

    pub open spec fn model(&self) -> QuadModel {
        (self.subject.model(), self.predicate@, self.object.model())
    }

    pub open spec fn deterministic(&self) -> bool {
        self.subject.deterministic() && self.object.deterministic()
    }
}

/// Whether a quad model only holds blank labels the engine keeps verbatim.
pub open spec fn quad_deterministic(q: QuadModel) -> bool {
    &&& (q.0.0 == 1 ==> blank_ok(q.0.1))
    &&& (q.2.0 == 1 ==> blank_ok(q.2.1))
}

/// The bytes of "http".
pub open spec fn has_http_prefix(b: Seq<u8>) -> bool {
    b.len() >= 4 && b[0] == 104u8 && b[1] == 116u8 && b[2] == 116u8 && b[3] == 112u8
}

/// The bytes of "_:".
pub open spec fn has_blank_prefix(b: Seq<u8>) -> bool {
    b.len() >= 2 && b[0] == 95u8 && b[1] == 58u8
}

/// The classification rule for subject position: text with the "http" prefix
/// must pass the engine's IRI parser (a parse failure is a hard error, not a
/// fallback), text with the "_:" prefix is a blank node labelled by the
/// remainder, and anything else is refused.
pub open spec fn subject_class(b: Seq<u8>) -> Option<TermModel> {
    if has_http_prefix(b) {
        if iri_ok(b) {
            Some((0int, b))
        } else {
            None
        }
    } else if has_blank_prefix(b) {
        Some((1int, b.skip(2)))
    } else {
        None
    }
}

/// The classification rule for predicate position: the text goes straight to
/// the engine's IRI parser, with no prefix test.
pub open spec fn predicate_class(b: Seq<u8>) -> Option<Seq<u8>> {
    if iri_ok(b) {
        Some(b)
    } else {
        None
    }
}

/// The classification rule for object position: as for subjects, except that
/// any other text becomes a plain literal holding the text verbatim. An IRI
/// without the "http" prefix (say a urn: scheme) therefore becomes a literal:
/// a deliberate gap of the heuristic, kept as it is.
pub open spec fn object_class(b: Seq<u8>) -> Option<TermModel> {
    if has_http_prefix(b) {
        if iri_ok(b) {
            Some((0int, b))
        } else {
            None
        }
    } else if has_blank_prefix(b) {
        Some((1int, b.skip(2)))
    } else {
        Some((2int, b))
    }
}

/// The three positions classified together; any single failure fails the quad.
pub open spec fn triple_class(sb: Seq<u8>, pb: Seq<u8>, ob: Seq<u8>) -> Option<QuadModel> {
    if subject_class(sb) is Some && predicate_class(pb) is Some && object_class(ob) is Some {
        Some((subject_class(sb)->Some_0, pb, object_class(ob)->Some_0))
    } else {
        None
    }
}

fn starts_with_http(b: &[u8]) -> (r: bool)
    ensures
        r == has_http_prefix(b@),
{
    b.len() >= 4 && b[0] == 104 && b[1] == 116 && b[2] == 116 && b[3] == 112
}

fn starts_with_blank(b: &[u8]) -> (r: bool)
    ensures
        r == has_blank_prefix(b@),
{
    b.len() >= 2 && b[0] == 95 && b[1] == 58
}

/// The bytes of b from position k on, as an owned vector.
fn tail_from(b: &[u8], k: usize) -> (r: Vec<u8>)
    requires
        k <= b@.len(),
    ensures
        r@ == b@.skip(k as int),
{
    let mut out: Vec<u8> = Vec::new();
    let mut i: usize = k;
    while i < b.len()
        invariant
            k <= i <= b@.len(),
            out@ == b@.subrange(k as int, i as int),
        decreases b@.len() - i,
    {
        out.push(b[i]);
        assert(out@ =~= b@.subrange(k as int, i + 1));
        i = i + 1;
    }
    assert(out@ =~= b@.skip(k as int));
    out
}

/// Dropping a two-byte ASCII prefix from valid UTF-8 leaves valid UTF-8.
proof fn lemma_blank_prefix_valid_utf8_skip(b: Seq<u8>)
    requires
        valid_utf8(b),
        has_blank_prefix(b),
    ensures
        valid_utf8(b.skip(2)),
{
    assert(is_leading_byte_width_1(95u8));
    assert(is_leading_byte_width_1(58u8));
    assert(valid_first_scalar(b));
    assert(length_of_first_scalar(b) == 1);
    let b1 = pop_first_scalar(b);
    assert(b1 =~= b.skip(1));
    assert(valid_utf8(b1));
    assert(b1.len() >= 1 && b1[0] == 58u8);
    assert(valid_first_scalar(b1));
    assert(length_of_first_scalar(b1) == 1);
    assert(pop_first_scalar(b1) =~= b.skip(2));
    assert(valid_utf8(pop_first_scalar(b1)));
}

/// Classifies text standing in subject position.
pub fn classify_subject(b: &[u8]) -> (r: Option<Term>)
    requires
        valid_utf8(b@),
    ensures
        (r is Some) == (subject_class(b@) is Some),
        r matches Some(t) ==> t.wf() && !(t is Lit) && Some(t.model()) == subject_class(b@),
{
    if starts_with_http(b) {
        if crate::engine::check_iri(b) {
            Some(Term::Iri(vstd::slice::slice_to_vec(b)))
        } else {
            None
        }
    } else if starts_with_blank(b) {
        proof {
            lemma_blank_prefix_valid_utf8_skip(b@);
        }
        Some(Term::Blank(tail_from(b, 2)))
    } else {
        None
    }
}

/// Classifies text standing in predicate position.
pub fn classify_predicate(b: &[u8]) -> (r: Option<Vec<u8>>)
    requires
        valid_utf8(b@),
    ensures
        (r is Some) == (predicate_class(b@) is Some),
        r matches Some(p) ==> p@ == b@ && iri_ok(b@),
{
    if crate::engine::check_iri(b) {
        Some(vstd::slice::slice_to_vec(b))
    } else {
        None
    }
}

/// Classifies text standing in object position.
pub fn classify_object(b: &[u8]) -> (r: Option<Term>)
    requires
        valid_utf8(b@),
    ensures
        (r is Some) == (object_class(b@) is Some),
        r matches Some(t) ==> t.wf() && Some(t.model()) == object_class(b@),
{
    if starts_with_http(b) {
        if crate::engine::check_iri(b) {
            Some(Term::Iri(vstd::slice::slice_to_vec(b)))
        } else {
            None
        }
    } else if starts_with_blank(b) {
        proof {
            lemma_blank_prefix_valid_utf8_skip(b@);
        }
        Some(Term::Blank(tail_from(b, 2)))
    } else {
        Some(Term::Lit(vstd::slice::slice_to_vec(b)))
    }
}

/// Whether these bytes are valid UTF-8: the test a caller makes before
/// handing text to the classifiers, whose contracts assume decoded input.
pub fn text_is_valid_utf8(b: &[u8]) -> (r: bool)
    ensures
        r == valid_utf8(b@),
{
    crate::engine::check_utf8(b)
}

/// Whether this classified term names a fixed node when handed to the
/// engine. A blank node whose label fails the engine's grammar is replaced
/// by a fresh engine-chosen identifier, so only terms this function accepts
/// are pinned down by the add/contains contracts.
pub fn term_is_deterministic(t: &Term) -> (r: bool)
    requires
        t.wf(),
    ensures
        r == t.deterministic(),
{
    match t {
        Term::Blank(b) => crate::engine::check_blank(b.as_slice()),
        _ => true,
    }
}

/// Classifies subject, predicate and object in that order; the first failure
/// refuses the whole quad, so a quad is never built from partial results.
pub fn build_triple(sb: &[u8], pb: &[u8], ob: &[u8]) -> (r: Option<Triple>)
    requires
        valid_utf8(sb@),
        valid_utf8(pb@),
        valid_utf8(ob@),
    ensures
        (r is Some) == (triple_class(sb@, pb@, ob@) is Some),
        r matches Some(t) ==> t.wf() && Some(t.model()) == triple_class(sb@, pb@, ob@),
{
    let subject = match classify_subject(sb) {
        Some(t) => t,
        None => {
            return None;
        },
    };
    let predicate = match classify_predicate(pb) {
        Some(p) => p,
        None => {
            return None;
        },
    };
    let object = match classify_object(ob) {
        Some(t) => t,
        None => {
            return None;
        },
    };
    Some(Triple { subject, predicate, object })
}

} // verus!
