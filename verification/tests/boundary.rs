use rdf_boundary::classify::{classify_object, classify_subject, term_is_deterministic, text_is_valid_utf8};
use rdf_boundary::engine::QueryOutcome;
use rdf_boundary::render::render_outcome;
use rdf_boundary::api::{
    add_triple, clear_store, contains_triple, count_triples, create_store, custom_ox_now,
    destroy_store, deterministic_byte, deterministic_fill, load_turtle, query_sparql,
    serialize_turtle, RdfStore,
};

fn arg(x: &str) -> Option<&[u8]> {
    Some(x.as_bytes())
}

fn fresh() -> RdfStore {
    create_store().expect("engine store")
}

#[test]
fn scenario_add_count_contains() {
    let mut s = fresh();
    assert_eq!(add_triple(&mut s, arg("http://a"), arg("http://p"), arg("http://b")), 0);
    assert_eq!(add_triple(&mut s, arg("http://a"), arg("http://p"), arg("plain")), 0);
    assert_eq!(count_triples(&s), 2);
    assert_eq!(contains_triple(&s, arg("http://a"), arg("http://p"), arg("http://b")), 1);
    assert_eq!(contains_triple(&s, arg("http://a"), arg("http://p"), arg("nope")), 0);
    destroy_store(s);
}

#[test]
fn classifier_gap_non_http_object_is_literal() {
    let mut s = fresh();
    assert_eq!(add_triple(&mut s, arg("http://a"), arg("http://p"), arg("urn:isbn:123")), 0);
    // The object went in as a plain literal, so asking for it as an IRI in
    // SPARQL finds nothing, while the literal form is found.
    let mut buf = vec![0u8; 64];
    let r = query_sparql(&s, arg("ASK { <http://a> <http://p> <urn:isbn:123> }"), &mut buf);
    assert_eq!(r, 5);
    assert_eq!(&buf[..5], b"false");
    let r = query_sparql(&s, arg("ASK { <http://a> <http://p> \"urn:isbn:123\" }"), &mut buf);
    assert_eq!(r, 4);
    assert_eq!(&buf[..4], b"true");
    // The flat surface classifies the same text the same way again.
    assert_eq!(contains_triple(&s, arg("http://a"), arg("http://p"), arg("urn:isbn:123")), 1);
}

#[test]
fn clear_resets_count_and_is_idempotent() {
    let mut s = fresh();
    assert_eq!(add_triple(&mut s, arg("http://a"), arg("http://p"), arg("x")), 0);
    assert_eq!(count_triples(&s), 1);
    assert_eq!(clear_store(&mut s), 0);
    assert_eq!(count_triples(&s), 0);
    assert_eq!(clear_store(&mut s), 0);
    assert_eq!(count_triples(&s), 0);
}

#[test]
fn add_then_contains() {
    let mut s = fresh();
    assert_eq!(add_triple(&mut s, arg("http://s"), arg("http://p"), arg("http://o")), 0);
    assert_eq!(contains_triple(&s, arg("http://s"), arg("http://p"), arg("http://o")), 1);
}

#[test]
fn double_insert_keeps_count() {
    let mut s = fresh();
    assert_eq!(add_triple(&mut s, arg("http://a"), arg("http://p"), arg("v")), 0);
    assert_eq!(count_triples(&s), 1);
    assert_eq!(add_triple(&mut s, arg("http://a"), arg("http://p"), arg("v")), 0);
    assert_eq!(count_triples(&s), 1);
}

#[test]
fn blank_nodes_round_through() {
    let mut s = fresh();
    assert_eq!(add_triple(&mut s, arg("_:b1"), arg("http://p"), arg("_:b2")), 0);
    assert_eq!(count_triples(&s), 1);
    assert_eq!(contains_triple(&s, arg("_:b1"), arg("http://p"), arg("_:b2")), 1);
}

#[test]
fn missing_arguments_give_minus_one() {
    let mut s = fresh();
    assert_eq!(add_triple(&mut s, None, arg("http://p"), arg("o")), -1);
    assert_eq!(add_triple(&mut s, arg("http://a"), None, arg("o")), -1);
    assert_eq!(add_triple(&mut s, arg("http://a"), arg("http://p"), None), -1);
    assert_eq!(contains_triple(&s, None, None, None), -1);
    assert_eq!(load_turtle(&mut s, None, None), -1);
    let mut buf = vec![0u8; 8];
    assert_eq!(query_sparql(&s, None, &mut buf), -1);
    let mut empty: Vec<u8> = Vec::new();
    assert_eq!(query_sparql(&s, arg("ASK {}"), &mut empty), -1);
    assert_eq!(serialize_turtle(&s, &mut empty), -1);
    assert_eq!(count_triples(&s), 0);
}

#[test]
fn bad_encoding_gives_minus_two() {
    let mut s = fresh();
    let bad: &[u8] = &[0xff, 0xfe];
    assert_eq!(add_triple(&mut s, Some(bad), arg("http://p"), arg("o")), -2);
    assert_eq!(add_triple(&mut s, arg("http://a"), Some(bad), arg("o")), -2);
    assert_eq!(add_triple(&mut s, arg("http://a"), arg("http://p"), Some(bad)), -2);
    assert_eq!(contains_triple(&s, Some(bad), arg("http://p"), arg("o")), -2);
    assert_eq!(load_turtle(&mut s, Some(bad), None), -2);
    assert_eq!(load_turtle(&mut s, arg(""), Some(bad)), -2);
    let mut buf = vec![0u8; 8];
    assert_eq!(query_sparql(&s, Some(bad), &mut buf), -2);
}

#[test]
fn classification_failures_give_minus_three() {
    let mut s = fresh();
    // subject neither "http"-prefixed nor a blank node
    assert_eq!(add_triple(&mut s, arg("plain"), arg("http://p"), arg("o")), -3);
    // subject with the "http" prefix that the IRI parser refuses
    assert_eq!(add_triple(&mut s, arg("http://a b"), arg("http://p"), arg("o")), -3);
    // predicate must parse as an IRI
    assert_eq!(add_triple(&mut s, arg("http://a"), arg("not an iri"), arg("o")), -3);
    // object with the "http" prefix that the IRI parser refuses is a hard
    // error, not a literal fallback
    assert_eq!(add_triple(&mut s, arg("http://a"), arg("http://p"), arg("http://a b")), -3);
    assert_eq!(contains_triple(&s, arg("plain"), arg("http://p"), arg("o")), -3);
    assert_eq!(count_triples(&s), 0);
}

#[test]
fn predicate_without_http_prefix_may_still_be_iri() {
    // The predicate goes straight to the IRI parser: no "http" prefix needed.
    let mut s = fresh();
    assert_eq!(add_triple(&mut s, arg("http://a"), arg("urn:isbn:123"), arg("o")), 0);
    assert_eq!(count_triples(&s), 1);
}

#[test]
fn invalid_blank_label_becomes_fresh_node() {
    let mut s = fresh();
    // "not a label" fails the blank-node grammar, so the engine substitutes a
    // fresh identifier instead of failing the call.
    assert_eq!(add_triple(&mut s, arg("_:not a label"), arg("http://p"), arg("o")), 0);
    assert_eq!(count_triples(&s), 1);
}

#[test]
fn query_select_renders_rows() {
    let mut s = fresh();
    assert_eq!(add_triple(&mut s, arg("http://a"), arg("http://p"), arg("plain")), 0);
    let mut buf = vec![0u8; 256];
    let r = query_sparql(&s, arg("SELECT ?s ?o WHERE { ?s <http://p> ?o }"), &mut buf);
    let expected = b"s=<http://a>, o=\"plain\"";
    assert_eq!(r, expected.len() as i32);
    assert_eq!(&buf[..expected.len()], expected);
    assert_eq!(buf[expected.len()], 0);
}

#[test]
fn query_select_empty_solution_set() {
    let s = fresh();
    let mut buf = vec![7u8; 16];
    let r = query_sparql(&s, arg("SELECT ?s WHERE { ?s ?p ?o }"), &mut buf);
    assert_eq!(r, 0);
    assert_eq!(buf[0], 0);
}

#[test]
fn query_parse_error_gives_minus_three() {
    let s = fresh();
    let mut buf = vec![0u8; 16];
    assert_eq!(query_sparql(&s, arg("this is not sparql"), &mut buf), -3);
}

#[test]
fn query_buffer_one_byte_short_leaves_sentinel() {
    let mut s = fresh();
    assert_eq!(add_triple(&mut s, arg("http://a"), arg("http://p"), arg("http://b")), 0);
    let query = "SELECT ?s WHERE { ?s <http://p> <http://b> }";
    let mut big = vec![0u8; 256];
    let n = query_sparql(&s, arg(query), &mut big);
    assert!(n > 0);
    // capacity one byte under content plus terminator: refused, untouched
    let mut short = vec![0xabu8; n as usize];
    assert_eq!(query_sparql(&s, arg(query), &mut short), -6);
    assert!(short.iter().all(|b| *b == 0xab));
    // exactly content plus terminator: accepted
    let mut exact = vec![0xabu8; n as usize + 1];
    assert_eq!(query_sparql(&s, arg(query), &mut exact), n);
    assert_eq!(exact[n as usize], 0);
    assert_eq!(&exact[..n as usize], &big[..n as usize]);
}

#[test]
fn serialize_small_buffer_leaves_sentinel() {
    let mut s = fresh();
    assert_eq!(add_triple(&mut s, arg("http://a"), arg("http://p"), arg("http://b")), 0);
    let mut short = vec![0x5au8; 2];
    assert_eq!(serialize_turtle(&s, &mut short), -3);
    assert!(short.iter().all(|b| *b == 0x5a));
}

#[test]
fn turtle_round_trip_keeps_count() {
    let mut s = fresh();
    assert_eq!(add_triple(&mut s, arg("http://a"), arg("http://p"), arg("http://b")), 0);
    assert_eq!(add_triple(&mut s, arg("http://a"), arg("http://p"), arg("plain")), 0);
    assert_eq!(add_triple(&mut s, arg("http://c"), arg("http://q"), arg("http://d")), 0);
    let mut buf = vec![0u8; 4096];
    let n = serialize_turtle(&s, &mut buf);
    assert!(n > 0);
    let mut t = fresh();
    assert_eq!(load_turtle(&mut t, Some(&buf[..n as usize]), None), 0);
    assert_eq!(count_triples(&t), count_triples(&s));
}

#[test]
fn load_turtle_accepts_base_and_rejects_garbage() {
    let mut s = fresh();
    let doc = "<http://a> <http://p> <http://b> .";
    assert_eq!(load_turtle(&mut s, arg(doc), arg("http://base/")), 0);
    assert_eq!(count_triples(&s), 1);
    assert_eq!(load_turtle(&mut s, arg("this is not turtle"), None), -3);
}

#[test]
fn timestamp_is_fixed() {
    assert_eq!(custom_ox_now(), 0);
}

#[test]
fn deterministic_bytes_follow_pattern() {
    assert_eq!(deterministic_byte(0), 42);
    assert_eq!(deterministic_byte(1), ((137 + 42) % 256) as u8);
    assert_eq!(deterministic_byte(2), ((2 * 137 + 42) % 256) as u8);
    assert_eq!(deterministic_byte(300), ((300 * 137 + 42) % 256) as u8);
    let mut buf = vec![0u8; 5];
    deterministic_fill(&mut buf);
    for (i, b) in buf.iter().enumerate() {
        assert_eq!(*b as usize, (i * 137 + 42) % 256);
    }
}

#[test]
fn deterministic_terms_are_recognized() {
    let t = classify_subject(b"_:b1").expect("blank subject");
    assert!(term_is_deterministic(&t));
    let t = classify_subject(b"_:not a label").expect("blank subject");
    assert!(!term_is_deterministic(&t));
    let t = classify_object(b"plain").expect("literal object");
    assert!(term_is_deterministic(&t));
    assert!(text_is_valid_utf8(b"http://a"));
    assert!(!text_is_valid_utf8(&[0xff, 0xfe]));
}

#[test]
fn rendering_joins_rows_and_drops_refused_ones() {
    let row1 = vec![
        (b"s".to_vec(), b"<http://a>".to_vec()),
        (b"o".to_vec(), b"\"x\"".to_vec()),
    ];
    let row2 = vec![(b"s".to_vec(), b"<http://b>".to_vec())];
    let outcome = QueryOutcome::Rows(vec![Some(row1), None, Some(row2)]);
    let text = render_outcome(&outcome);
    assert_eq!(text, b"s=<http://a>, o=\"x\"\ns=<http://b>".to_vec());
    assert_eq!(render_outcome(&QueryOutcome::Bool(true)), b"true".to_vec());
    assert_eq!(render_outcome(&QueryOutcome::Bool(false)), b"false".to_vec());
    assert_eq!(render_outcome(&QueryOutcome::Graph), b"graph result".to_vec());
}
