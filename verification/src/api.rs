use vstd::prelude::*;
use vstd::utf8::valid_utf8;
use vstd::arithmetic::div_mod::{lemma_add_mod_noop, lemma_mul_mod_noop_left};
use crate::classify::{build_triple, quad_deterministic, triple_class, QuadModel};
use crate::engine::{
    check_utf8, engine_clear, engine_contains, engine_dump_turtle, engine_insert, engine_len,
    engine_load_turtle, engine_new, engine_query, sparql_parse_ok, store_quads, QueryOutcome,
};
use crate::marshal::{contains_nul, find_nul, write_payload};
use crate::render::render_outcome;
use oxigraph::store::Store;

verus! {

/// A handle owning exactly one engine store instance. Dropping it releases
/// the instance; the handle is not reference-counted.
pub struct RdfStore {
    store: Store,
}

impl RdfStore {
    /// The quads the store holds, as a model.
    pub closed spec fn quads(&self) -> Set<QuadModel> {
        store_quads(self.store)
    }

    /// A store that came out of create_store holds finitely many quads, and
    /// every operation keeps that.
    pub closed spec fn wf(&self) -> bool {
        self.quads().finite()
    }
}

/// Creates a fresh store holding no quads; None when the engine cannot set
/// one up.
pub fn create_store() -> (r: Option<RdfStore>)
    ensures
        r matches Some(s) ==> s.wf() && s.quads() == Set::<QuadModel>::empty(),
{
    match engine_new() {
        Some(store) => Some(RdfStore { store }),
        None => None,
    }
}

/// Releases the store. Consuming the handle here drops the engine instance
/// exactly once; using a handle after this point is ruled out by ownership.
pub fn destroy_store(store: RdfStore) {
    let _ = store;
}

/// Classifies the three texts, builds the quad and inserts it into the
/// default graph. 0 on success; -1 for a missing argument, -2 for text that
/// is not UTF-8, -3 when classification refuses a position, -4 when the
/// engine refuses the insert. Nothing is inserted on any failure.
pub fn add_triple(
    store: &mut RdfStore,
    subject: Option<&[u8]>,
    predicate: Option<&[u8]>,
    object: Option<&[u8]>,
) -> (r: i32)
    requires
        old(store).wf(),
    ensures
        final(store).wf(),
        r == 0 || r == -1 || r == -2 || r == -3 || r == -4,
        r != 0 ==> final(store).quads() == old(store).quads(),
        (r == -1) <==> (subject is None || predicate is None || object is None),
        subject matches Some(sb) ==> (predicate matches Some(pb) ==> (object matches Some(ob) ==> {
            &&& ((r == -2) <==> !(valid_utf8(sb@) && valid_utf8(pb@) && valid_utf8(ob@)))
            &&& (valid_utf8(sb@) && valid_utf8(pb@) && valid_utf8(ob@) ==> ((r == -3) <==> triple_class(
                sb@,
                pb@,
                ob@,
            ) is None))
            &&& (triple_class(sb@, pb@, ob@) matches Some(q) ==> ((valid_utf8(sb@) && valid_utf8(
                pb@,
            ) && valid_utf8(ob@)) ==> {
                &&& r == 0 || r == -4
                &&& (r == 0 && quad_deterministic(q) ==> final(store).quads() == old(
                    store,
                ).quads().insert(q))
                &&& (r == 0 && !quad_deterministic(q) ==> exists|q2: QuadModel|
                    final(store).quads() == old(store).quads().insert(q2))
            }))
        })),
{
    let sb = match subject {
        Some(s) => s,
        None => {
            return -1;
        },
    };
    let pb = match predicate {
        Some(p) => p,
        None => {
            return -1;
        },
    };
    let ob = match object {
        Some(o) => o,
        None => {
            return -1;
        },
    };
    if !check_utf8(sb) {
        return -2;
    }
    if !check_utf8(pb) {
        return -2;
    }
    if !check_utf8(ob) {
        return -2;
    }
    let t = match build_triple(sb, pb, ob) {
        Some(t) => t,
        None => {
            return -3;
        },
    };
    assert(t.deterministic() == quad_deterministic(t.model()));
    match engine_insert(&mut store.store, &t) {
        Some(_) => 0,
        None => -4,
    }
}

/// Classifies the three texts and asks the engine whether the quad is
/// present: 1 when it is, 0 when it is not, -1/-2/-3 as for add_triple, -4
/// when the engine itself fails.
pub fn contains_triple(
    store: &RdfStore,
    subject: Option<&[u8]>,
    predicate: Option<&[u8]>,
    object: Option<&[u8]>,
) -> (r: i32)
    ensures
        r == 1 || r == 0 || r == -1 || r == -2 || r == -3 || r == -4,
        (r == -1) <==> (subject is None || predicate is None || object is None),
        subject matches Some(sb) ==> (predicate matches Some(pb) ==> (object matches Some(ob) ==> {
            &&& ((r == -2) <==> !(valid_utf8(sb@) && valid_utf8(pb@) && valid_utf8(ob@)))
            &&& (valid_utf8(sb@) && valid_utf8(pb@) && valid_utf8(ob@) ==> ((r == -3) <==> triple_class(
                sb@,
                pb@,
                ob@,
            ) is None))
            &&& (triple_class(sb@, pb@, ob@) matches Some(q) ==> ((valid_utf8(sb@) && valid_utf8(
                pb@,
            ) && valid_utf8(ob@)) ==> {
                &&& r == 1 || r == 0 || r == -4
                &&& (quad_deterministic(q) && r == 1 ==> store.quads().contains(q))
                &&& (quad_deterministic(q) && r == 0 ==> !store.quads().contains(q))
            }))
        })),
{
    let sb = match subject {
        Some(s) => s,
        None => {
            return -1;
        },
    };
    let pb = match predicate {
        Some(p) => p,
        None => {
            return -1;
        },
    };
    let ob = match object {
        Some(o) => o,
        None => {
            return -1;
        },
    };
    if !check_utf8(sb) {
        return -2;
    }
    if !check_utf8(pb) {
        return -2;
    }
    if !check_utf8(ob) {
        return -2;
    }
    let t = match build_triple(sb, pb, ob) {
        Some(t) => t,
        None => {
            return -3;
        },
    };
    assert(t.deterministic() == quad_deterministic(t.model()));
    match engine_contains(&store.store, &t) {
        Some(true) => 1,
        Some(false) => 0,
        None => -4,
    }
}

/// The number of quads in the store as a non-negative value, or -2 when the
/// engine cannot count them (a count beyond i64 is reported the same way).
pub fn count_triples(store: &RdfStore) -> (r: i64)
    requires
        store.wf(),
    ensures
        r >= 0 ==> r as int == store.quads().len(),
        r < 0 ==> r == -2,
{
    match engine_len(&store.store) {
        Some(n) => {
            if n <= (i64::MAX as usize) {
                n as i64
            } else {
                -2
            }
        },
        None => -2,
    }
}

/// Empties the store: 0 on success and the store holds nothing afterwards;
/// -2 when the engine fails, leaving the contents as they were. Clearing an
/// already empty store succeeds again, so the call is idempotent.
pub fn clear_store(store: &mut RdfStore) -> (r: i32)
    requires
        old(store).wf(),
    ensures
        final(store).wf(),
        r == 0 || r == -2,
        r == 0 ==> final(store).quads() == Set::<QuadModel>::empty(),
        r == -2 ==> final(store).quads() == old(store).quads(),
{
    if engine_clear(&mut store.store) {
        0
    } else {
        -2
    }
}

/// Hands the whole Turtle document to the engine's reader in one call. 0 on
/// success, -1 for a missing document, -2 for text that is not UTF-8 (in the
/// document or the base identifier) -- both leave the store untouched, since
/// they come before the engine is asked -- and -3 when the engine refuses the
/// parse; what a failed parse leaves applied is the engine's own behaviour. The base
/// identifier is accepted but not yet threaded into the parse: a known gap,
/// kept as it is.
pub fn load_turtle(store: &mut RdfStore, turtle: Option<&[u8]>, base: Option<&[u8]>) -> (r: i32)
    requires
        old(store).wf(),
    ensures
        final(store).wf(),
        r == 0 || r == -1 || r == -2 || r == -3,
        (r == -1) <==> turtle is None,
        turtle matches Some(tb) ==> ((r == -2) <==> (!valid_utf8(tb@) || (base matches Some(bb)
            && !valid_utf8(bb@)))),
        r == -1 || r == -2 ==> final(store).quads() == old(store).quads(),
{
    let tb = match turtle {
        Some(t) => t,
        None => {
            return -1;
        },
    };
    if !check_utf8(tb) {
        return -2;
    }
    match base {
        Some(bb) => {
            if !check_utf8(bb) {
                return -2;
            }
        },
        None => {},
    }
    if engine_load_turtle(&mut store.store, tb) {
        0
    } else {
        -3
    }
}

/// Serializes the whole store as Turtle into buf, whose length stands for the
/// caller's declared capacity. On success the payload and one terminator byte
/// fill the front of buf, the rest stays, and the content length comes back.
/// -1 for a zero capacity, -2 when the engine cannot dump, -3 when the
/// content does not fit with its terminator, -4 for a terminator byte inside
/// the content; on every failure buf is left completely untouched.
pub fn serialize_turtle(store: &RdfStore, buf: &mut Vec<u8>) -> (r: i32)
    requires
        old(buf)@.len() <= 0x7fffffff,
    ensures
        final(buf)@.len() == old(buf)@.len(),
        r >= 0 || r == -1 || r == -2 || r == -3 || r == -4,
        (r == -1) <==> old(buf)@.len() == 0,
        r < 0 ==> final(buf)@ == old(buf)@,
        r >= 0 ==> {
            &&& r + 1 <= old(buf)@.len()
            &&& final(buf)@[r as int] == 0
            &&& !contains_nul(final(buf)@.take(r as int))
            &&& final(buf)@.skip(r as int + 1) == old(buf)@.skip(r as int + 1)
        },
{
    if buf.len() == 0 {
        return -1;
    }
    let content = match engine_dump_turtle(&store.store) {
        Some(c) => c,
        None => {
            return -2;
        },
    };
    if content.len() >= buf.len() {
        return -3;
    }
    if find_nul(content.as_slice()) {
        return -4;
    }
    match write_payload(content.as_slice(), buf) {
        Some(n) => {
            proof {
                assert(buf@.take(n as int) =~= content@);
                assert(buf@[n as int] == 0);
                assert(buf@.skip(n as int + 1) =~= old(buf)@.skip(n as int + 1));
            }
            n as i32
        },
        None => {
            // never reached: the content was checked to fit with its terminator
            proof {
                assert(false);
            }
            -3
        },
    }
}

/// Parses and runs the query, renders the outcome and copies it into buf,
/// whose length stands for the caller's declared capacity. A non-negative
/// return is the content length; -1 for a missing query or zero capacity, -2
/// for query text that is not UTF-8, -3 when the SPARQL parser refuses it,
/// -4 when evaluation fails, -5 for a terminator byte inside the rendered
/// outcome, -6 when the outcome does not fit with its terminator; on every
/// failure buf is left completely untouched.
pub fn query_sparql(store: &RdfStore, query: Option<&[u8]>, buf: &mut Vec<u8>) -> (r: i32)
    requires
        old(buf)@.len() <= 0x7fffffff,
    ensures
        final(buf)@.len() == old(buf)@.len(),
        r >= 0 || r == -1 || r == -2 || r == -3 || r == -4 || r == -5 || r == -6,
        (r == -1) <==> (query is None || old(buf)@.len() == 0),
        r < 0 ==> final(buf)@ == old(buf)@,
        query matches Some(qb) ==> (old(buf)@.len() > 0 ==> {
            &&& ((r == -2) <==> !valid_utf8(qb@))
            &&& (valid_utf8(qb@) ==> ((r == -3) <==> !sparql_parse_ok(qb@)))
        }),
        r >= 0 ==> {
            &&& r + 1 <= old(buf)@.len()
            &&& final(buf)@[r as int] == 0
            &&& !contains_nul(final(buf)@.take(r as int))
            &&& final(buf)@.skip(r as int + 1) == old(buf)@.skip(r as int + 1)
        },
{
    let qb = match query {
        Some(q) => q,
        None => {
            return -1;
        },
    };
    if buf.len() == 0 {
        return -1;
    }
    if !check_utf8(qb) {
        return -2;
    }
    let outcome = engine_query(&store.store, qb);
    match outcome {
        QueryOutcome::ParseError => {
            return -3;
        },
        QueryOutcome::ExecError => {
            return -4;
        },
        _ => {},
    }
    let content = render_outcome(&outcome);
    if find_nul(content.as_slice()) {
        return -5;
    }
    match write_payload(content.as_slice(), buf) {
        Some(n) => {
            proof {
                assert(buf@.take(n as int) =~= content@);
                assert(buf@[n as int] == 0);
                assert(buf@.skip(n as int + 1) =~= old(buf)@.skip(n as int + 1));
            }
            n as i32
        },
        None => -6,
    }
}

/// The engine-independent timestamp source: always the fixed epoch value, so
/// runs are deterministic by configuration.
pub fn custom_ox_now() -> (r: u64)
    ensures
        r == 0,
{
    0
}

/// The byte the deterministic randomness substitute puts at position i.
pub open spec fn pattern_byte(i: int) -> int {
    (i * 137 + 42) % 256
}

/// One byte of the deterministic randomness substitute.
pub fn deterministic_byte(i: usize) -> (r: u8)
    ensures
        r as int == pattern_byte(i as int),
{
    let k: u64 = (i % 256) as u64;
    let v: u64 = (k * 137 + 42) % 256;
    proof {
        lemma_mul_mod_noop_left(i as int, 137, 256);
        lemma_add_mod_noop((i as int % 256) * 137, 42, 256);
        lemma_add_mod_noop(i as int * 137, 42, 256);
    }
    v as u8
}

/// Fills the buffer with the deterministic byte pattern used in place of an
/// entropy source on execution targets without one.
pub fn deterministic_fill(dest: &mut Vec<u8>)
    ensures
        final(dest)@.len() == old(dest)@.len(),
        forall|j: int| 0 <= j < final(dest)@.len() ==> final(dest)@[j] as int == pattern_byte(j),
{
    let n: usize = dest.len();
    let mut i: usize = 0;
    while i < n
        invariant
            i <= n,
            n == dest@.len(),
            forall|j: int| 0 <= j < i ==> dest@[j] as int == pattern_byte(j),
        decreases n - i,
    {
        let b: u8 = deterministic_byte(i);
        dest[i] = b;
        i = i + 1;
    }
}

} // verus!
