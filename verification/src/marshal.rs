use vstd::prelude::*;

verus! {

/// Whether the bytes hold an embedded terminator byte.
pub open spec fn contains_nul(b: Seq<u8>) -> bool {
    exists|i: int| 0 <= i < b.len() && b[i] == 0
}

/// Scans for an embedded terminator byte.
pub fn find_nul(b: &[u8]) -> (r: bool)
    ensures
        r == contains_nul(b@),
{
    let mut i: usize = 0;
    while i < b.len()
        invariant
            0 <= i <= b@.len(),
            forall|j: int| 0 <= j < i ==> b@[j] != 0,
        decreases b@.len() - i,
    {
        if b[i] == 0 {
            assert(b@[i as int] == 0);
            return true;
        }
        i = i + 1;
    }
    false
}

/// Appends all of b to out.
pub fn append_bytes(out: &mut Vec<u8>, b: &[u8])
    ensures
        final(out)@ == old(out)@ + b@,
{
    let mut i: usize = 0;
    while i < b.len()
        invariant
            0 <= i <= b@.len(),
            out@ == old(out)@ + b@.take(i as int),
        decreases b@.len() - i,
    {
        out.push(b[i]);
        assert(out@ =~= old(out)@ + b@.take(i + 1));
        i = i + 1;
    }
    assert(out@ =~= old(out)@ + b@);
}

/// The single buffer write of a call: the content and one terminator byte go
/// to the front of buf, and only when they fit together within its capacity;
/// a content too long for the buffer leaves it completely untouched. The
/// replacement buffer is built in full before buf is assigned once, so a
/// partial write cannot happen. On success the returned length counts the
/// content bytes without the terminator.
pub fn write_payload(content: &[u8], buf: &mut Vec<u8>) -> (r: Option<usize>)
    ensures
        final(buf)@.len() == old(buf)@.len(),
        (r is None) <==> (content@.len() + 1 > old(buf)@.len()),
        r is None ==> final(buf)@ == old(buf)@,
        r matches Some(n) ==> n == content@.len() && final(buf)@ == content@ + seq![0u8]
            + old(buf)@.skip(n + 1),
{
    if buf.len() == 0 || content.len() > buf.len() - 1 {
        return None;
    }
    let n: usize = content.len();
    let mut out: Vec<u8> = Vec::new();
    append_bytes(&mut out, content);
    out.push(0);
    assert(out@ =~= content@ + seq![0u8] + buf@.subrange(n + 1, n + 1));
    let mut i: usize = n + 1;
    while i < buf.len()
        invariant
            n + 1 <= i <= buf@.len(),
            n == content@.len(),
            buf@ == old(buf)@,
            out@ == content@ + seq![0u8] + buf@.subrange(n + 1, i as int),
        decreases buf@.len() - i,
    {
        let byte: u8 = buf[i];
        out.push(byte);
        assert(out@ =~= content@ + seq![0u8] + buf@.subrange(n + 1, i + 1));
        i = i + 1;
    }
    assert(out@ =~= content@ + seq![0u8] + buf@.skip(n + 1));
    *buf = out;
    Some(n)
}

} // verus!
