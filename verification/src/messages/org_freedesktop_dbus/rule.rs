//! Match rules for signal subscriptions.
use crate::encoder::MessageType;
use crate::error::EncodeError;
use crate::incoming::IncomingMessage;
use vstd::prelude::*;
use vstd::string::StringSliceAdditionalSpecFns;

verus! {

/// Formats match rules.
pub struct Rule;

/// Longest match rule that `Subscribe` and `Unsubscribe` format.
pub const RULE_BUFFER_LEN: usize = 1024;

/// One `,key='value'` clause of a rule, if the value is given.
pub open spec fn rule_clause(key: Seq<u8>, value: Option<Seq<u8>>) -> Seq<u8> {
    match value {
        Some(v) => key + v + "'".spec_bytes(),
        None => Seq::empty(),
    }
}

/// The text of a signal match rule with the given optional constraints.
pub open spec fn rule_text(
    sender: Option<Seq<u8>>,
    interface: Option<Seq<u8>>,
    path: Option<Seq<u8>>,
    member: Option<Seq<u8>>,
) -> Seq<u8> {
    "type='signal'".spec_bytes() + rule_clause(",sender='".spec_bytes(), sender) + rule_clause(
        ",interface='".spec_bytes(),
        interface,
    ) + rule_clause(",path='".spec_bytes(), path) + rule_clause(",member='".spec_bytes(), member)
}

/// The constraints of a signal match rule; a field left `None` is free.
pub struct MatchRule {
    pub sender: Option<Seq<u8>>,
    pub interface: Option<Seq<u8>>,
    pub path: Option<Seq<u8>>,
    pub member: Option<Seq<u8>>,
}

/// Whether a message field with value `v` meets the constraint `k`.
pub open spec fn key_admits(k: Option<Seq<u8>>, v: Option<&str>) -> bool {
    match k {
        None => true,
        Some(want) => v matches Some(got) && got.spec_bytes() == want,
    }
}

impl MatchRule {
    /// The rule as the bus reads it.
    pub open spec fn text(self) -> Seq<u8> {
        rule_text(self.sender, self.interface, self.path, self.member)
    }

    /// Whether the bus delivers `m` to a connection that added this rule.
    pub open spec fn admits(self, m: IncomingMessage) -> bool {
        &&& m.message_type == MessageType::Signal
        &&& key_admits(self.sender, m.sender)
        &&& key_admits(self.interface, m.interface)
        &&& key_admits(self.path, m.path)
        &&& key_admits(self.member, m.member)
    }
}

/// The bytes of an optional string.
pub open spec fn opt_str(o: Option<&str>) -> Option<Seq<u8>> {
    match o {
        Some(s) => Some(s.spec_bytes()),
        None => None,
    }
}

/// The pieces of a constraint: key, value and closing quote, if the value is given.
pub open spec fn clause_parts(key: Seq<u8>, value: Option<Seq<u8>>) -> Seq<Seq<u8>> {
    match value {
        Some(v) => seq![key, v, "'".spec_bytes()],
        None => Seq::empty(),
    }
}

/// The pieces that a rule is written in, in order.
pub open spec fn rule_parts(
    sender: Option<Seq<u8>>,
    interface: Option<Seq<u8>>,
    path: Option<Seq<u8>>,
    member: Option<Seq<u8>>,
) -> Seq<Seq<u8>> {
    seq!["type='signal'".spec_bytes()] + clause_parts(",sender='".spec_bytes(), sender) + clause_parts(
        ",interface='".spec_bytes(),
        interface,
    ) + clause_parts(",path='".spec_bytes(), path) + clause_parts(",member='".spec_bytes(), member)
}

/// The pieces one after another.
pub open spec fn joined(parts: Seq<Seq<u8>>) -> Seq<u8>
    decreases parts.len(),
{
    if parts.len() == 0 {
        Seq::empty()
    } else {
        joined(parts.drop_last()) + parts.last()
    }
}

/// How many bytes of `parts` are written into `room` bytes: the whole pieces
/// before the first one that does not fit.
pub open spec fn fitting_len(parts: Seq<Seq<u8>>, room: int) -> int
    decreases parts.len(),
{
    if parts.len() == 0 || parts[0].len() > room {
        0
    } else {
        parts[0].len() + fitting_len(parts.drop_first(), room - parts[0].len())
    }
}

/// Joining two runs of pieces.
proof fn lemma_joined_concat(a: Seq<Seq<u8>>, b: Seq<Seq<u8>>)
    ensures
        joined(a + b) == joined(a) + joined(b),
    decreases b.len(),
{
    if b.len() == 0 {
        assert(a + b =~= a);
        assert(joined(a) + joined(b) =~= joined(a));
    } else {
        assert((a + b).drop_last() =~= a + b.drop_last());
        lemma_joined_concat(a, b.drop_last());
        assert(joined(a) + joined(b.drop_last()) + b.last() =~= joined(a) + (joined(b.drop_last()) + b.last()));
    }
}

/// Joining one more piece appends it.
proof fn lemma_joined_push(parts: Seq<Seq<u8>>, x: Seq<u8>)
    ensures
        joined(parts.push(x)) == joined(parts) + x,
{
    assert(parts.push(x).drop_last() =~= parts);
}

/// Joining a single piece gives the piece.
proof fn lemma_joined_one(x: Seq<u8>)
    ensures
        joined(seq![x]) == x,
{
    lemma_joined_push(Seq::empty(), x);
    assert(Seq::<Seq<u8>>::empty().push(x) =~= seq![x]);
    assert(Seq::<u8>::empty() + x =~= x);
}

/// Joining the pieces of one constraint gives its clause.
proof fn lemma_joined_clause(key: Seq<u8>, value: Option<Seq<u8>>)
    ensures
        joined(clause_parts(key, value)) == rule_clause(key, value),
{
    match value {
        Some(v) => {
            let q = "'".spec_bytes();
            lemma_joined_one(key);
            lemma_joined_push(seq![key], v);
            assert(seq![key].push(v) =~= seq![key, v]);
            lemma_joined_push(seq![key, v], q);
            assert(seq![key, v].push(q) =~= seq![key, v, q]);
        },
        None => {},
    }
}

/// The pieces of a rule join into its text.
proof fn lemma_rule_parts_text(
    sender: Option<Seq<u8>>,
    interface: Option<Seq<u8>>,
    path: Option<Seq<u8>>,
    member: Option<Seq<u8>>,
)
    ensures
        joined(rule_parts(sender, interface, path, member)) == rule_text(sender, interface, path, member),
{
    let t = seq!["type='signal'".spec_bytes()];
    let c1 = clause_parts(",sender='".spec_bytes(), sender);
    let c2 = clause_parts(",interface='".spec_bytes(), interface);
    let c3 = clause_parts(",path='".spec_bytes(), path);
    let c4 = clause_parts(",member='".spec_bytes(), member);
    lemma_joined_one("type='signal'".spec_bytes());
    lemma_joined_concat(t, c1);
    lemma_joined_concat(t + c1, c2);
    lemma_joined_concat(t + c1 + c2, c3);
    lemma_joined_concat(t + c1 + c2 + c3, c4);
    lemma_joined_clause(",sender='".spec_bytes(), sender);
    lemma_joined_clause(",interface='".spec_bytes(), interface);
    lemma_joined_clause(",path='".spec_bytes(), path);
    lemma_joined_clause(",member='".spec_bytes(), member);
}

/// Whether piece `i` fits decides how much of the pieces from `i` on fit.
proof fn lemma_fitting_step(parts: Seq<Seq<u8>>, i: int, room: int)
    requires
        0 <= i < parts.len(),
    ensures
        fitting_len(parts.skip(i), room) == if parts[i].len() > room {
            0
        } else {
            parts[i].len() + fitting_len(parts.skip(i + 1), room - parts[i].len())
        },
{
    assert(parts.skip(i)[0] == parts[i]);
    assert(parts.skip(i).drop_first() =~= parts.skip(i + 1));
}

/// The bytes of the strings `pv`.
pub open spec fn part_bytes(pv: Seq<&str>) -> Seq<Seq<u8>> {
    Seq::new(pv.len(), |j: int| pv[j].spec_bytes())
}

/// Appends the pieces of a constraint.
fn add_clause<'a>(pv: &mut Vec<&'a str>, key: &'a str, value: Option<&'a str>)
    ensures
        part_bytes(final(pv)@) == part_bytes(old(pv)@) + clause_parts(key.spec_bytes(), opt_str(value)),
{
    match value {
        Some(v) => {
            pv.push(key);
            pv.push(v);
            pv.push("'");
            assert(part_bytes(pv@) =~= part_bytes(old(pv)@) + clause_parts(key.spec_bytes(), opt_str(value)));
        },
        None => {
            assert(part_bytes(pv@) =~= part_bytes(old(pv)@) + clause_parts(key.spec_bytes(), opt_str(value)));
        },
    }
}

impl Rule {
    /// Writes the match rule into `buf` and returns its length.
    ///
    /// # Errors
    ///
    /// Returns `BufferTooSmall` if the rule is longer than `buf`; the rule is
    /// written in pieces (the type, then key, value and quote of each
    /// constraint), and the whole pieces before the first that did not fit
    /// are then written.
    pub fn fmt(
        buf: &mut [u8],
        sender: Option<&str>,
        interface: Option<&str>,
        path: Option<&str>,
        member: Option<&str>,
    ) -> (r: Result<usize, EncodeError>)
        ensures
            ({
                let text = rule_text(opt_str(sender), opt_str(interface), opt_str(path), opt_str(member));
                let written = fitting_len(
                    rule_parts(opt_str(sender), opt_str(interface), opt_str(path), opt_str(member)),
                    old(buf)@.len() as int,
                );
                &&& final(buf)@.len() == old(buf)@.len()
                &&& match r {
                    Ok(n) => n == text.len() && text.len() <= old(buf)@.len() && final(buf)@
                        == text + old(buf)@.skip(text.len() as int),
                    Err(e) => e == EncodeError::BufferTooSmall && text.len() > old(buf)@.len() && 0 <= written
                        <= old(buf)@.len() && final(buf)@ == text.subrange(0, written) + old(buf)@.skip(written),
                }
            }),
    {
        let ghost parts = rule_parts(opt_str(sender), opt_str(interface), opt_str(path), opt_str(member));
        let ghost text = rule_text(opt_str(sender), opt_str(interface), opt_str(path), opt_str(member));
        let ghost orig = buf@;
        let mut pv: Vec<&str> = Vec::new();
        pv.push("type='signal'");
        proof {
            assert(part_bytes(pv@) =~= seq!["type='signal'".spec_bytes()]);
        }
        add_clause(&mut pv, ",sender='", sender);
        add_clause(&mut pv, ",interface='", interface);
        add_clause(&mut pv, ",path='", path);
        add_clause(&mut pv, ",member='", member);
        proof {
            lemma_rule_parts_text(opt_str(sender), opt_str(interface), opt_str(path), opt_str(member));
            assert(part_bytes(pv@) =~= parts);
            assert(parts.take(0) =~= Seq::<Seq<u8>>::empty());
            assert(parts.skip(0) =~= parts);
            assert(buf@ =~= joined(parts.take(0)) + orig.skip(0));
        }
        let n = pv.len();
        let mut i: usize = 0;
        let mut offset: usize = 0;
        while i < n
            invariant
                orig == old(buf)@,
                parts == rule_parts(opt_str(sender), opt_str(interface), opt_str(path), opt_str(member)),
                text == rule_text(opt_str(sender), opt_str(interface), opt_str(path), opt_str(member)),
                n == pv@.len(),
                part_bytes(pv@) == parts,
                joined(parts) == text,
                i <= n,
                buf@.len() == orig.len(),
                offset <= orig.len(),
                offset == joined(parts.take(i as int)).len(),
                buf@ == joined(parts.take(i as int)) + orig.skip(offset as int),
                fitting_len(parts, orig.len() as int) == offset + fitting_len(
                    parts.skip(i as int),
                    orig.len() - offset,
                ),
            decreases n - i,
        {
            let ghost before = parts.take(i as int);
            proof {
                assert(pv@[i as int].spec_bytes() == parts[i as int]);
                lemma_fitting_step(parts, i as int, orig.len() - offset);
                assert(parts.take(i + 1).drop_last() =~= before);
                assert(parts.take(i + 1).last() == parts[i as int]);
                assert(parts =~= before + parts.skip(i as int));
                lemma_joined_concat(before, parts.skip(i as int));
                assert(parts.skip(i as int) =~= seq![parts[i as int]] + parts.skip(i + 1));
                lemma_joined_concat(seq![parts[i as int]], parts.skip(i + 1));
                lemma_joined_one(parts[i as int]);
            }
            match push(buf, offset, pv[i]) {
                Ok(k) => {
                    proof {
                        assert(buf@ =~= joined(parts.take(i + 1)) + orig.skip(offset + k));
                    }
                    offset = offset + k;
                },
                Err(e) => {
                    proof {
                        assert(parts[i as int].len() > orig.len() - offset);
                        assert(fitting_len(parts, orig.len() as int) == offset);
                        assert(text == joined(before) + (parts[i as int] + joined(parts.skip(i + 1))));
                        assert(text.len() > orig.len());
                        assert(joined(before) =~= text.subrange(0, offset as int));
                    }
                    return Err(e);
                },
            }
            i = i + 1;
        }
        proof {
            assert(parts.take(n as int) =~= parts);
        }
        Ok(offset)
    }
}

impl Rule {
    /// Formats the match rule into a fresh buffer of `RULE_BUFFER_LEN` bytes
    /// and returns the rule's bytes.
    pub fn format(
        sender: Option<&str>,
        interface: Option<&str>,
        path: Option<&str>,
        member: Option<&str>,
    ) -> (r: Result<Vec<u8>, EncodeError>)
        ensures
            ({
                let text = rule_text(opt_str(sender), opt_str(interface), opt_str(path), opt_str(member));
                match r {
                    Ok(v) => v@ == text && text.len() <= RULE_BUFFER_LEN,
                    Err(e) => e == EncodeError::BufferTooSmall && text.len() > RULE_BUFFER_LEN,
                }
            }),
    {
        let mut rulebuf = vec![0u8; RULE_BUFFER_LEN];
        let n = Rule::fmt(rulebuf.as_mut_slice(), sender, interface, path, member)?;
        let mut out: Vec<u8> = Vec::new();
        let mut i: usize = 0;
        while i < n
            invariant
                n <= rulebuf@.len(),
                i <= n,
                out@ == rulebuf@.subrange(0, i as int),
            decreases n - i,
        {
            out.push(rulebuf[i]);
            i = i + 1;
            assert(out@ =~= rulebuf@.subrange(0, i as int));
        }
        proof {
            let text = rule_text(opt_str(sender), opt_str(interface), opt_str(path), opt_str(member));
            assert(rulebuf@.subrange(0, n as int) =~= text);
        }
        Ok(out)
    }
}

/// Writes `s` into `buf` at `offset` and returns its length.
///
/// # Errors
///
/// Returns `BufferTooSmall`, and leaves `buf` as it was, if `s` does not fit.
pub fn push(buf: &mut [u8], offset: usize, s: &str) -> (r: Result<usize, EncodeError>)
    ensures
        match r {
            Ok(n) => n == s.spec_bytes().len() && offset + n <= old(buf)@.len() <= usize::MAX && final(buf)@
                == old(buf)@.subrange(0, offset as int) + s.spec_bytes() + old(buf)@.skip(
                offset + n,
            ),
            Err(e) => e == EncodeError::BufferTooSmall && offset + s.spec_bytes().len() > old(
                buf,
            )@.len() && final(buf)@ == old(buf)@,
        },
{
    let b = s.as_bytes();
    if offset > buf.len() || b.len() > buf.len() - offset {
        return Err(EncodeError::BufferTooSmall);
    }
    let n = b.len();
    let blen = buf.len();
    let mut i: usize = 0;
    while i < n
        invariant
            blen == buf@.len(),
            n == b@.len(),
            b@ == s.spec_bytes(),
            offset + n <= buf@.len(),
            buf@.len() == old(buf)@.len(),
            i <= n,
            forall|j: int| 0 <= j < offset ==> buf@[j] == old(buf)@[j],
            forall|j: int| 0 <= j < i ==> buf@[offset + j] == b@[j],
            forall|j: int| offset + i <= j < buf@.len() ==> buf@[j] == old(buf)@[j],
        decreases n - i,
    {
        buf[offset + i] = b[i];
        i = i + 1;
    }
    assert(buf@ =~= old(buf)@.subrange(0, offset as int) + s.spec_bytes() + old(buf)@.skip(
        offset + n,
    ));
    Ok(n)
}

} // verus!
