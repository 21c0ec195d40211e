use vstd::prelude::*;
use vstd::utf8::valid_utf8;
use crate::classify::{Triple, QuadModel};
use crate::classify::Term::{Blank, Iri, Lit};
use core::str::from_utf8;
use oxigraph::model::{BlankNode, Literal, NamedNode, NamedOrBlankNode, Quad};
use oxigraph::model::GraphName::DefaultGraph;
use oxigraph::model::Term as OxTerm;
use oxigraph::sparql::{QueryResults, SparqlEvaluator};
use oxigraph::store::Store;

verus! {

/// Whether the engine's IRI parser (oxigraph::model::NamedNode::new) accepts
/// this text; acceptance depends on the text alone.
pub uninterp spec fn iri_ok(s: Seq<u8>) -> bool;

/// Whether the engine's blank-node grammar (oxigraph::model::BlankNode::new)
/// accepts this label; acceptance depends on the label alone.
pub uninterp spec fn blank_ok(s: Seq<u8>) -> bool;

/// Whether the engine's SPARQL parser accepts this query text; acceptance
/// depends on the text alone.
pub uninterp spec fn sparql_parse_ok(s: Seq<u8>) -> bool;

/// The quads an engine store holds, as subject/predicate/object models. Every
/// quad this library puts there lives in the default graph, so no graph
/// component is modelled.
pub uninterp spec fn store_quads(s: Store) -> Set<QuadModel>;

#[verifier::external_type_specification]
#[verifier::external_body]
pub struct ExStore(Store);

/// What one query run handed back, as plain values: each solution row is its
/// (variable name, term text) pairs, a row the evaluator refused is None.
pub enum QueryOutcome {
    ParseError,
    ExecError,
    Bool(bool),
    Rows(Vec<Option<Vec<(Vec<u8>, Vec<u8>)>>>),
    Graph,
}

/// Relies on str::from_utf8 for UTF-8 validation, the same notion of validity
/// that vstd's valid_utf8 describes.
#[verifier::external_body]
pub(crate) fn check_utf8(b: &[u8]) -> (r: bool)
    ensures
        r == valid_utf8(b@),
{
    from_utf8(b).is_ok()
}

/// Relies on oxigraph::model::NamedNode::new: whether the IRI text parses
/// depends on the text alone.
#[verifier::external_body]
pub(crate) fn check_iri(b: &[u8]) -> (r: bool)
    requires
        valid_utf8(b@),
    ensures
        r == iri_ok(b@),
{
    NamedNode::new(from_utf8(b).unwrap_or("")).is_ok()
}

/// Relies on oxigraph::model::BlankNode::new: whether the label passes the
/// blank-node grammar depends on the label alone. This is the grammar test
/// behind Triple::deterministic, the guard under which engine_insert and
/// engine_contains pin the quad that the engine sees.
#[verifier::external_body]
pub(crate) fn check_blank(b: &[u8]) -> (r: bool)
    requires
        valid_utf8(b@),
    ensures
        r == blank_ok(b@),
{
    BlankNode::new(from_utf8(b).unwrap_or("")).is_ok()
}

/// Relies on Store::new: a fresh in-memory store holds no quads.
#[verifier::external_body]
pub(crate) fn engine_new() -> (r: Option<Store>)
    ensures
        r matches Some(s) ==> store_quads(s) == Set::<QuadModel>::empty(),
{
    Store::new().ok()
}

/// Relies on Store::insert: one atomic insert of the quad into the default
/// graph, with set semantics, leaving the store untouched on failure. The quad
/// is built by NamedNode::new, BlankNode::new (a refused label is replaced by
/// a fresh engine-chosen one, so only a deterministic triple's model is known)
/// and Literal::new_simple_literal.
#[verifier::external_body]
pub(crate) fn engine_insert(store: &mut Store, t: &Triple) -> (r: Option<()>)
    requires
        t.wf(),
    ensures
        r is Some && t.deterministic() ==> store_quads(*final(store)) == store_quads(
            *old(store),
        ).insert(t.model()),
        r is Some && !t.deterministic() ==> exists|q: QuadModel|
            store_quads(*final(store)) == store_quads(*old(store)).insert(q),
        r is None ==> store_quads(*final(store)) == store_quads(*old(store)),
{
    let iri = |b: &Vec<u8>| NamedNode::new(String::from_utf8_lossy(b)).unwrap();
    let blank = |b: &Vec<u8>| BlankNode::new(String::from_utf8_lossy(b)).unwrap_or_default();
    let sub: NamedOrBlankNode = match &t.subject {
        Iri(b) => iri(b).into(),
        Blank(b) => blank(b).into(),
        Lit(_) => return None,
    };
    let obj: OxTerm = match &t.object {
        Iri(b) => iri(b).into(),
        Blank(b) => blank(b).into(),
        Lit(b) => Literal::new_simple_literal(String::from_utf8_lossy(b)).into(),
    };
    store.insert(&Quad::new(sub, iri(&t.predicate), obj, DefaultGraph)).ok()
}

/// Relies on Store::contains for the quad built exactly as in engine_insert.
#[verifier::external_body]
pub(crate) fn engine_contains(store: &Store, t: &Triple) -> (r: Option<bool>)
    requires
        t.wf(),
    ensures
        t.deterministic() ==> match r {
            Some(b) => b == store_quads(*store).contains(t.model()),
            None => true,
        },
{
    let iri = |b: &Vec<u8>| NamedNode::new(String::from_utf8_lossy(b)).unwrap();
    let blank = |b: &Vec<u8>| BlankNode::new(String::from_utf8_lossy(b)).unwrap_or_default();
    let sub: NamedOrBlankNode = match &t.subject {
        Iri(b) => iri(b).into(),
        Blank(b) => blank(b).into(),
        Lit(_) => return None,
    };
    let obj: OxTerm = match &t.object {
        Iri(b) => iri(b).into(),
        Blank(b) => blank(b).into(),
        Lit(b) => Literal::new_simple_literal(String::from_utf8_lossy(b)).into(),
    };
    store.contains(&Quad::new(sub, iri(&t.predicate), obj, DefaultGraph)).ok()
}

/// Relies on Store::len: the number of quads held.
#[verifier::external_body]
pub(crate) fn engine_len(store: &Store) -> (r: Option<usize>)
    requires
        store_quads(*store).finite(),
    ensures
        r matches Some(n) ==> n == store_quads(*store).len(),
{
    store.len().ok()
}

/// Relies on Store::clear: one atomic clear, leaving the store empty on
/// success and untouched on failure.
#[verifier::external_body]
pub(crate) fn engine_clear(store: &mut Store) -> (r: bool)
    ensures
        r ==> store_quads(*final(store)) == Set::<QuadModel>::empty(),
        !r ==> store_quads(*final(store)) == store_quads(*old(store)),
{
    store.clear().is_ok()
}

/// Relies on Store::load_from_reader with the Turtle format. On malformed
/// input the engine decides how much of the document was applied, and blank
/// nodes get engine-chosen labels, so only finiteness is stated.
#[verifier::external_body]
pub(crate) fn engine_load_turtle(store: &mut Store, text: &[u8]) -> (r: bool)
    requires
        valid_utf8(text@),
    ensures
        store_quads(*old(store)).finite() ==> store_quads(*final(store)).finite(),
{
    store.load_from_reader(oxigraph::io::RdfFormat::Turtle, text).is_ok()
}

/// Relies on Store::dump_graph_to_writer with the Turtle format: the whole
/// store rendered as Turtle text, or None when the engine refuses to dump.
/// Every quad this surface writes lives in the default graph, so dumping that
/// graph dumps the whole store.
#[verifier::external_body]
pub(crate) fn engine_dump_turtle(store: &Store) -> (r: Option<Vec<u8>>) {
    let mut buffer: Vec<u8> = Vec::new();
    let name = oxigraph::model::GraphNameRef::DefaultGraph;
    match store.dump_graph_to_writer(name, oxigraph::io::RdfFormat::Turtle, &mut buffer) {
        Ok(_) => Some(buffer),
        Err(_) => None,
    }
}

/// Relies on SparqlEvaluator::parse_query, whose acceptance depends on the
/// query text alone, and on BoundPreparedSparqlQuery::execute, whose outcome
/// the store's contents and the evaluator decide. Each accepted solution row
/// becomes its (variable name, term text) pairs in solution order, with
/// Variable::as_str naming the variable and the term's Display text naming
/// the term; a row the evaluator refused becomes None.
#[verifier::external_body]
pub(crate) fn engine_query(store: &Store, q: &[u8]) -> (r: QueryOutcome)
    requires
        valid_utf8(q@),
    ensures
        (r is ParseError) == !sparql_parse_ok(q@),
{
    let prepared = match SparqlEvaluator::new().parse_query(from_utf8(q).unwrap_or("")) {
        Ok(p) => p,
        Err(_) => return QueryOutcome::ParseError,
    };
    match prepared.on_store(store).execute() {
        Ok(QueryResults::Solutions(rows)) => QueryOutcome::Rows(rows.map(|s| s.ok().map(|row|
            row.iter().map(|(v, t)| (v.as_str().as_bytes().to_vec(), t.to_string().into_bytes())).collect()
        )).collect()),
        Ok(QueryResults::Boolean(b)) => QueryOutcome::Bool(b),
        Ok(QueryResults::Graph(_)) => QueryOutcome::Graph,
        Err(_) => QueryOutcome::ExecError,
    }
}

} // verus!
