//! The wire format of tasks on the control channel.
//!
//! A task travels as bytes. The first byte tells the kind of task. A number
//! is eight bytes, least significant first. A text is the number of its
//! bytes and then its UTF-8 encoding. A list is the number of its items and
//! then the items. A text that may be absent is a byte that says whether it
//! is there, and then the text.

use vstd::prelude::*;
use vstd::bytes::spec_u64_from_le_bytes;
use vstd::bytes::spec_u64_to_le_bytes;
use vstd::bytes::lemma_auto_spec_u64_to_from_le_bytes;
use vstd::utf8::decode_utf8;
use vstd::utf8::encode_utf8;
use vstd::utf8::valid_utf8;
use vstd::utf8::encode_utf8_decode_utf8;
use vstd::utf8::encode_utf8_valid_utf8;
use vstd::bytes::u64_from_le_bytes;
use vstd::bytes::u64_to_le_bytes;
use vstd::slice::slice_subrange;
use vstd::slice::slice_to_vec;
use crate::container::ContainerTask;
use crate::container::ContainerTaskView;
use crate::dependency::Dependency;
use crate::error::Error;
use crate::error::ErrorView;
use crate::error::ErrorKindView;
use crate::dependency::DependencyView;

verus! {

/// The first byte of a command.
pub const TAG_COMMAND: u8 = 0;

/// The first byte of a list of dependencies to resolve.
pub const TAG_RESOLVE: u8 = 1;

/// The first byte of the task that ends the loop.
pub const TAG_EXIT: u8 = 2;

/// The greatest number that the format can hold.
pub open spec fn max_len() -> nat {
    u64::MAX as nat
}

/// The bytes of a number.
pub open spec fn enc_len(n: nat) -> Seq<u8> {
    spec_u64_to_le_bytes(n as u64)
}

/// The bytes of a text.
pub open spec fn enc_text(s: Seq<char>) -> Seq<u8> {
    enc_len(encode_utf8(s).len()) + encode_utf8(s)
}

/// The bytes of a text that may be absent.
#[verifier::opaque]
pub open spec fn enc_opt_text(o: Option<Seq<char>>) -> Seq<u8> {
    match o {
        Some(s) => seq![1u8] + enc_text(s),
        None => seq![0u8],
    }
}

/// The bytes of a truth value.
pub open spec fn enc_bool(b: bool) -> Seq<u8> {
    if b {
        seq![1u8]
    } else {
        seq![0u8]
    }
}

/// The bytes of the items of a list of texts, one after the other.
pub open spec fn enc_text_items(v: Seq<Seq<char>>) -> Seq<u8>
    decreases v.len(),
{
    if v.len() == 0 {
        Seq::empty()
    } else {
        enc_text_items(v.drop_last()) + enc_text(v.last())
    }
}

/// The bytes of a list of texts.
pub open spec fn enc_texts(v: Seq<Seq<char>>) -> Seq<u8> {
    enc_len(v.len()) + enc_text_items(v)
}

/// The bytes of a dependency: its four fields.
pub open spec fn enc_dependency(d: DependencyView) -> Seq<u8> {
    enc_opt_text(d.purl) + enc_opt_text(d.provider) + enc_opt_text(d.package) + enc_opt_text(
        d.version,
    )
}

/// The bytes of the items of a list of dependencies, one after the other.
pub open spec fn enc_dependency_items(v: Seq<DependencyView>) -> Seq<u8>
    decreases v.len(),
{
    if v.len() == 0 {
        Seq::empty()
    } else {
        enc_dependency_items(v.drop_last()) + enc_dependency(v.last())
    }
}

/// The bytes of a list of dependencies.
pub open spec fn enc_dependencies(v: Seq<DependencyView>) -> Seq<u8> {
    enc_len(v.len()) + enc_dependency_items(v)
}

/// The bytes of a task.
pub open spec fn encoding(t: ContainerTaskView) -> Seq<u8> {
    match t {
        ContainerTaskView::Command { name, params, reuse_pid } => seq![TAG_COMMAND] + enc_text(
            name,
        ) + enc_texts(params) + enc_bool(reuse_pid),
        ContainerTaskView::ResolveDependencies(list) => seq![TAG_RESOLVE] + enc_dependencies(list),
        ContainerTaskView::Exit => seq![TAG_EXIT],
    }
}

/// The number at the front of some bytes, and the bytes after it.
pub open spec fn parse_len(b: Seq<u8>) -> Option<(nat, Seq<u8>)> {
    if b.len() >= 8 {
        Some((spec_u64_from_le_bytes(b.take(8)) as nat, b.skip(8)))
    } else {
        None
    }
}

/// The text at the front of some bytes, and the bytes after it.
pub open spec fn parse_text(b: Seq<u8>) -> Option<(Seq<char>, Seq<u8>)> {
    match parse_len(b) {
        Some((n, rest)) => if n <= rest.len() && valid_utf8(rest.take(n as int)) {
            Some((decode_utf8(rest.take(n as int)), rest.skip(n as int)))
        } else {
            None
        },
        None => None,
    }
}

/// The text that may be absent at the front of some bytes, and the bytes
/// after it.
#[verifier::opaque]
pub open spec fn parse_opt_text(b: Seq<u8>) -> Option<(Option<Seq<char>>, Seq<u8>)> {
    if b.len() == 0 {
        None
    } else if b[0] == 0 {
        Some((None, b.skip(1)))
    } else if b[0] == 1 {
        match parse_text(b.skip(1)) {
            Some((s, rest)) => Some((Some(s), rest)),
            None => None,
        }
    } else {
        None
    }
}

/// The truth value at the front of some bytes, and the bytes after it.
pub open spec fn parse_bool(b: Seq<u8>) -> Option<(bool, Seq<u8>)> {
    if b.len() == 0 {
        None
    } else if b[0] == 0 {
        Some((false, b.skip(1)))
    } else if b[0] == 1 {
        Some((true, b.skip(1)))
    } else {
        None
    }
}

/// The first `count` texts at the front of some bytes, and the bytes after
/// them.
pub open spec fn parse_text_items(b: Seq<u8>, count: nat) -> Option<(Seq<Seq<char>>, Seq<u8>)>
    decreases count,
{
    if count == 0 {
        Some((Seq::empty(), b))
    } else {
        match parse_text_items(b, (count - 1) as nat) {
            Some((items, rest)) => match parse_text(rest) {
                Some((s, after)) => Some((items.push(s), after)),
                None => None,
            },
            None => None,
        }
    }
}

/// The list of texts at the front of some bytes, and the bytes after it.
pub open spec fn parse_texts(b: Seq<u8>) -> Option<(Seq<Seq<char>>, Seq<u8>)> {
    match parse_len(b) {
        Some((n, rest)) => parse_text_items(rest, n),
        None => None,
    }
}

/// The dependency at the front of some bytes, and the bytes after it.
pub open spec fn parse_dependency(b: Seq<u8>) -> Option<(DependencyView, Seq<u8>)> {
    match parse_opt_text(b) {
        Some((purl, b1)) => match parse_opt_text(b1) {
            Some((provider, b2)) => match parse_opt_text(b2) {
                Some((package, b3)) => match parse_opt_text(b3) {
                    Some((version, b4)) => Some(
                        (DependencyView { purl, provider, package, version }, b4),
                    ),
                    None => None,
                },
                None => None,
            },
            None => None,
        },
        None => None,
    }
}

/// The first `count` dependencies at the front of some bytes, and the bytes
/// after them.
pub open spec fn parse_dependency_items(b: Seq<u8>, count: nat) -> Option<
    (Seq<DependencyView>, Seq<u8>),
>
    decreases count,
{
    if count == 0 {
        Some((Seq::empty(), b))
    } else {
        match parse_dependency_items(b, (count - 1) as nat) {
            Some((items, rest)) => match parse_dependency(rest) {
                Some((d, after)) => Some((items.push(d), after)),
                None => None,
            },
            None => None,
        }
    }
}

/// The list of dependencies at the front of some bytes, and the bytes after
/// it.
pub open spec fn parse_dependencies(b: Seq<u8>) -> Option<(Seq<DependencyView>, Seq<u8>)> {
    match parse_len(b) {
        Some((n, rest)) => parse_dependency_items(rest, n),
        None => None,
    }
}

/// The task at the front of some bytes, and the bytes after it.
pub open spec fn parse_task(b: Seq<u8>) -> Option<(ContainerTaskView, Seq<u8>)> {
    if b.len() == 0 {
        None
    } else if b[0] == TAG_COMMAND {
        match parse_text(b.skip(1)) {
            Some((name, b1)) => match parse_texts(b1) {
                Some((params, b2)) => match parse_bool(b2) {
                    Some((reuse_pid, b3)) => Some(
                        (ContainerTaskView::Command { name, params, reuse_pid }, b3),
                    ),
                    None => None,
                },
                None => None,
            },
            None => None,
        }
    } else if b[0] == TAG_RESOLVE {
        match parse_dependencies(b.skip(1)) {
            Some((list, rest)) => Some((ContainerTaskView::ResolveDependencies(list), rest)),
            None => None,
        }
    } else if b[0] == TAG_EXIT {
        Some((ContainerTaskView::Exit, b.skip(1)))
    } else {
        None
    }
}

/// The task that some bytes hold: they are a task from the first byte to
/// the last.
pub open spec fn decoding(b: Seq<u8>) -> Option<ContainerTaskView> {
    match parse_task(b) {
        Some((t, rest)) => if rest.len() == 0 {
            Some(t)
        } else {
            None
        },
        None => None,
    }
}

/// Whether the format can hold a text: the number of its bytes fits.
pub open spec fn text_fits(s: Seq<char>) -> bool {
    encode_utf8(s).len() <= max_len()
}

/// Whether the format can hold a text that may be absent.
pub open spec fn opt_text_fits(o: Option<Seq<char>>) -> bool {
    match o {
        Some(s) => text_fits(s),
        None => true,
    }
}

/// Whether the format can hold a dependency.
pub open spec fn dependency_fits(d: DependencyView) -> bool {
    opt_text_fits(d.purl) && opt_text_fits(d.provider) && opt_text_fits(d.package)
        && opt_text_fits(d.version)
}

/// Whether the format can hold a task: every length in it fits.
pub open spec fn task_fits(t: ContainerTaskView) -> bool {
    match t {
        ContainerTaskView::Command { name, params, reuse_pid } => {
            &&& text_fits(name)
            &&& params.len() <= max_len()
            &&& forall|i: int| 0 <= i < params.len() ==> text_fits(#[trigger] params[i])
        },
        ContainerTaskView::ResolveDependencies(list) => {
            &&& list.len() <= max_len()
            &&& forall|i: int| 0 <= i < list.len() ==> dependency_fits(#[trigger] list[i])
        },
        ContainerTaskView::Exit => true,
    }
}

/// A number in front of any bytes is read back, and the bytes are left.
pub proof fn lemma_len_round_trip(n: nat, rest: Seq<u8>)
    requires
        n <= max_len(),
    ensures
        parse_len(enc_len(n) + rest) == Some((n, rest)),
{
    lemma_auto_spec_u64_to_from_le_bytes();
    let b = enc_len(n) + rest;
    assert(b.take(8) =~= enc_len(n));
    assert(b.skip(8) =~= rest);
}

/// A text in front of any bytes is read back, and the bytes are left.
pub proof fn lemma_text_round_trip(s: Seq<char>, rest: Seq<u8>)
    requires
        text_fits(s),
    ensures
        parse_text(enc_text(s) + rest) == Some((s, rest)),
{
    let body = encode_utf8(s);
    let n = body.len();
    assert(enc_text(s) + rest =~= enc_len(n) + (body + rest));
    lemma_len_round_trip(n, body + rest);
    assert((body + rest).take(n as int) =~= body);
    assert((body + rest).skip(n as int) =~= rest);
    encode_utf8_valid_utf8(s);
    encode_utf8_decode_utf8(s);
}

/// A text that may be absent, in front of any bytes, is read back, and the
/// bytes are left.
pub proof fn lemma_opt_text_round_trip(o: Option<Seq<char>>, rest: Seq<u8>)
    requires
        opt_text_fits(o),
    ensures
        parse_opt_text(enc_opt_text(o) + rest) == Some((o, rest)),
{
    reveal(enc_opt_text);
    reveal(parse_opt_text);
    let b = enc_opt_text(o) + rest;
    match o {
        Some(s) => {
            assert(b.skip(1) =~= enc_text(s) + rest);
            lemma_text_round_trip(s, rest);
        },
        None => {
            assert(b.skip(1) =~= rest);
        },
    }
}

/// A truth value in front of any bytes is read back, and the bytes are
/// left.
pub proof fn lemma_bool_round_trip(v: bool, rest: Seq<u8>)
    ensures
        parse_bool(enc_bool(v) + rest) == Some((v, rest)),
{
    assert((enc_bool(v) + rest).skip(1) =~= rest);
}

/// The items of a list of texts in front of any bytes are read back, and
/// the bytes are left.
pub proof fn lemma_text_items_round_trip(v: Seq<Seq<char>>, rest: Seq<u8>)
    requires
        forall|i: int| 0 <= i < v.len() ==> text_fits(#[trigger] v[i]),
    ensures
        parse_text_items(enc_text_items(v) + rest, v.len()) == Some((v, rest)),
    decreases v.len(),
{
    if v.len() > 0 {
        let front = v.drop_last();
        let tail = enc_text(v.last()) + rest;
        assert(enc_text_items(v) + rest =~= enc_text_items(front) + tail);
        lemma_text_items_round_trip(front, tail);
        lemma_text_round_trip(v.last(), rest);
        assert(front.push(v.last()) =~= v);
    } else {
        assert(enc_text_items(v) + rest =~= rest);
        assert(v =~= Seq::empty());
    }
}

/// A list of texts in front of any bytes is read back, and the bytes are
/// left.
pub proof fn lemma_texts_round_trip(v: Seq<Seq<char>>, rest: Seq<u8>)
    requires
        v.len() <= max_len(),
        forall|i: int| 0 <= i < v.len() ==> text_fits(#[trigger] v[i]),
    ensures
        parse_texts(enc_texts(v) + rest) == Some((v, rest)),
{
    assert(enc_texts(v) + rest =~= enc_len(v.len()) + (enc_text_items(v) + rest));
    lemma_len_round_trip(v.len(), enc_text_items(v) + rest);
    lemma_text_items_round_trip(v, rest);
}

/// Four texts that may be absent, read one after the other, are a
/// dependency.
proof fn lemma_dependency_from_fields(
    b: Seq<u8>,
    d: DependencyView,
    r1: Seq<u8>,
    r2: Seq<u8>,
    r3: Seq<u8>,
    rest: Seq<u8>,
)
    requires
        parse_opt_text(b) == Some((d.purl, r1)),
        parse_opt_text(r1) == Some((d.provider, r2)),
        parse_opt_text(r2) == Some((d.package, r3)),
        parse_opt_text(r3) == Some((d.version, rest)),
    ensures
        parse_dependency(b) == Some((d, rest)),
{
}

/// A dependency in front of any bytes is read back, and the bytes are left.
pub proof fn lemma_dependency_round_trip(d: DependencyView, rest: Seq<u8>)
    requires
        dependency_fits(d),
    ensures
        parse_dependency(enc_dependency(d) + rest) == Some((d, rest)),
{
    let r3 = enc_opt_text(d.version) + rest;
    let r2 = enc_opt_text(d.package) + r3;
    let r1 = enc_opt_text(d.provider) + r2;
    let b = enc_dependency(d) + rest;
    assert(b == enc_opt_text(d.purl) + r1) by {
        assert(b =~= enc_opt_text(d.purl) + r1);
    }
    lemma_opt_text_round_trip(d.purl, r1);
    lemma_opt_text_round_trip(d.provider, r2);
    lemma_opt_text_round_trip(d.package, r3);
    lemma_opt_text_round_trip(d.version, rest);
    lemma_dependency_from_fields(b, d, r1, r2, r3, rest);
}

/// The items of a list of dependencies in front of any bytes are read back,
/// and the bytes are left.
pub proof fn lemma_dependency_items_round_trip(v: Seq<DependencyView>, rest: Seq<u8>)
    requires
        forall|i: int| 0 <= i < v.len() ==> dependency_fits(#[trigger] v[i]),
    ensures
        parse_dependency_items(enc_dependency_items(v) + rest, v.len()) == Some((v, rest)),
    decreases v.len(),
{
    if v.len() > 0 {
        let front = v.drop_last();
        let tail = enc_dependency(v.last()) + rest;
        assert(enc_dependency_items(v) + rest =~= enc_dependency_items(front) + tail);
        lemma_dependency_items_round_trip(front, tail);
        lemma_dependency_round_trip(v.last(), rest);
        assert(front.push(v.last()) =~= v);
    } else {
        assert(enc_dependency_items(v) + rest =~= rest);
        assert(v =~= Seq::empty());
    }
}

/// A list of dependencies in front of any bytes is read back, and the bytes
/// are left.
pub proof fn lemma_dependencies_round_trip(v: Seq<DependencyView>, rest: Seq<u8>)
    requires
        v.len() <= max_len(),
        forall|i: int| 0 <= i < v.len() ==> dependency_fits(#[trigger] v[i]),
    ensures
        parse_dependencies(enc_dependencies(v) + rest) == Some((v, rest)),
{
    assert(enc_dependencies(v) + rest =~= enc_len(v.len()) + (enc_dependency_items(v) + rest));
    lemma_len_round_trip(v.len(), enc_dependency_items(v) + rest);
    lemma_dependency_items_round_trip(v, rest);
}

/// Decoding undoes encoding: the bytes of a task that the format can hold
/// decode to that task.
pub proof fn lemma_task_round_trip(t: ContainerTaskView)
    requires
        task_fits(t),
    ensures
        decoding(encoding(t)) == Some(t),
{
    let b = encoding(t);
    let none = Seq::<u8>::empty();
    match t {
        ContainerTaskView::Command { name, params, reuse_pid } => {
            let r2 = enc_bool(reuse_pid) + none;
            let r1 = enc_texts(params) + r2;
            assert(b.skip(1) =~= enc_text(name) + r1);
            lemma_text_round_trip(name, r1);
            lemma_texts_round_trip(params, r2);
            lemma_bool_round_trip(reuse_pid, none);
        },
        ContainerTaskView::ResolveDependencies(list) => {
            assert(b.skip(1) =~= enc_dependencies(list) + none);
            lemma_dependencies_round_trip(list, none);
        },
        ContainerTaskView::Exit => {
            assert(b.skip(1) =~= none);
        },
    }
}

/// Once the first items of a list of texts cannot be read, no longer list
/// can.
pub proof fn lemma_text_items_stay_unreadable(b: Seq<u8>, k: nat, n: nat)
    requires
        k <= n,
        parse_text_items(b, k) is None,
    ensures
        parse_text_items(b, n) is None,
    decreases n,
{
    if k < n {
        lemma_text_items_stay_unreadable(b, k, (n - 1) as nat);
    }
}

/// Once the first items of a list of dependencies cannot be read, no longer
/// list can.
pub proof fn lemma_dependency_items_stay_unreadable(b: Seq<u8>, k: nat, n: nat)
    requires
        k <= n,
        parse_dependency_items(b, k) is None,
    ensures
        parse_dependency_items(b, n) is None,
    decreases n,
{
    if k < n {
        lemma_dependency_items_stay_unreadable(b, k, (n - 1) as nat);
    }
}

/// `String::from_utf8` makes a text of bytes that are valid UTF-8, the text
/// that they encode, and fails on any other bytes.
#[verifier::external_body]
fn text_from_utf8(bytes: Vec<u8>) -> (r: Option<String>)
    ensures
        r is Some <==> valid_utf8(bytes@),
        r is Some ==> r->Some_0@ == decode_utf8(bytes@),
{
    String::from_utf8(bytes).ok()
}

fn put_len(out: &mut Vec<u8>, n: usize)
    ensures
        final(out)@ == old(out)@ + enc_len(n as nat),
{
    let mut digits: Vec<u8> = u64_to_le_bytes(n as u64);
    out.append(&mut digits);
}

fn put_text(out: &mut Vec<u8>, s: &str)
    ensures
        final(out)@ == old(out)@ + enc_text(s@),
        text_fits(s@),
{
    let body: &[u8] = s.as_bytes();
    let ghost before = out@;
    put_len(out, body.len());
    out.extend_from_slice(body);
    assert(out@ =~= before + enc_text(s@));
}

fn put_opt_text(out: &mut Vec<u8>, o: &Option<String>)
    ensures
        final(out)@ == old(out)@ + enc_opt_text(o.deep_view()),
        opt_text_fits(o.deep_view()),
{
    reveal(enc_opt_text);
    let ghost before = out@;
    match o {
        Some(s) => {
            out.push(1u8);
            put_text(out, s.as_str());
            assert(out@ =~= before + enc_opt_text(o.deep_view()));
        },
        None => {
            out.push(0u8);
            assert(out@ =~= before + enc_opt_text(o.deep_view()));
        },
    }
}

fn put_dependency(out: &mut Vec<u8>, d: &Dependency)
    ensures
        final(out)@ == old(out)@ + enc_dependency(d@),
        dependency_fits(d@),
{
    let ghost before = out@;
    put_opt_text(out, &d.purl);
    put_opt_text(out, &d.provider);
    put_opt_text(out, &d.package);
    put_opt_text(out, &d.version);
    assert(out@ =~= before + enc_dependency(d@));
}

fn put_texts(out: &mut Vec<u8>, v: &Vec<String>)
    ensures
        final(out)@ == old(out)@ + enc_texts(v.deep_view()),
        v.deep_view().len() <= max_len(),
        forall|i: int| 0 <= i < v.deep_view().len() ==> text_fits(#[trigger] v.deep_view()[i]),
{
    let ghost before = out@;
    let ghost items = v.deep_view();
    put_len(out, v.len());
    let ghost start = out@;
    let mut i: usize = 0;
    assert(items.take(0) =~= Seq::empty());
    while i < v.len()
        invariant
            0 <= i <= v.len(),
            items == v.deep_view(),
            out@ == start + enc_text_items(items.take(i as int)),
            forall|k: int| 0 <= k < i ==> text_fits(#[trigger] items[k]),
        decreases v.len() - i,
    {
        put_text(out, v[i].as_str());
        assert(items.take(i + 1).drop_last() =~= items.take(i as int));
        assert(items.take(i + 1).last() == items[i as int]);
        i = i + 1;
        assert(out@ =~= start + enc_text_items(items.take(i as int)));
    }
    assert(items.take(i as int) =~= items);
    assert(out@ =~= before + enc_texts(items));
}

fn put_dependencies(out: &mut Vec<u8>, v: &Vec<Dependency>)
    ensures
        final(out)@ == old(out)@ + enc_dependencies(v.deep_view()),
        v.deep_view().len() <= max_len(),
        forall|i: int|
            0 <= i < v.deep_view().len() ==> dependency_fits(#[trigger] v.deep_view()[i]),
{
    let ghost before = out@;
    let ghost items = v.deep_view();
    put_len(out, v.len());
    let ghost start = out@;
    let mut i: usize = 0;
    assert(items.take(0) =~= Seq::empty());
    while i < v.len()
        invariant
            0 <= i <= v.len(),
            items == v.deep_view(),
            out@ == start + enc_dependency_items(items.take(i as int)),
            forall|k: int| 0 <= k < i ==> dependency_fits(#[trigger] items[k]),
        decreases v.len() - i,
    {
        put_dependency(out, &v[i]);
        assert(items.take(i + 1).drop_last() =~= items.take(i as int));
        assert(items.take(i + 1).last() == items[i as int]);
        i = i + 1;
        assert(out@ =~= start + enc_dependency_items(items.take(i as int)));
    }
    assert(items.take(i as int) =~= items);
    assert(out@ =~= before + enc_dependencies(items));
}

fn read_len(bytes: &[u8], pos: usize) -> (r: Option<(u64, usize)>)
    requires
        pos <= bytes@.len(),
    ensures
        match parse_len(bytes@.skip(pos as int)) {
            Some((n, rest)) => r is Some && r->Some_0.0 as nat == n && r->Some_0.1 <= bytes@.len()
                && bytes@.skip(r->Some_0.1 as int) == rest,
            None => r is None,
        },
{
    if bytes.len() - pos < 8 {
        return None;
    }
    let digits: &[u8] = slice_subrange(bytes, pos, pos + 8);
    let n: u64 = u64_from_le_bytes(digits);
    proof {
        let from = bytes@.skip(pos as int);
        assert(from.take(8) =~= digits@);
        assert(from.skip(8) =~= bytes@.skip(pos + 8));
    }
    Some((n, pos + 8))
}

fn read_text(bytes: &[u8], pos: usize) -> (r: Option<(String, usize)>)
    requires
        pos <= bytes@.len(),
    ensures
        match parse_text(bytes@.skip(pos as int)) {
            Some((s, rest)) => r is Some && r->Some_0.0@ == s && r->Some_0.1 <= bytes@.len()
                && bytes@.skip(r->Some_0.1 as int) == rest,
            None => r is None,
        },
{
    let (n, start): (u64, usize) = match read_len(bytes, pos) {
        Some(found) => found,
        None => {
            return None;
        },
    };
    if n > (bytes.len() - start) as u64 {
        return None;
    }
    let end: usize = start + n as usize;
    let body: Vec<u8> = slice_to_vec(slice_subrange(bytes, start, end));
    proof {
        let from = bytes@.skip(start as int);
        assert(from.take(n as int) =~= body@);
        assert(from.skip(n as int) =~= bytes@.skip(end as int));
    }
    match text_from_utf8(body) {
        Some(s) => Some((s, end)),
        None => None,
    }
}

fn read_opt_text(bytes: &[u8], pos: usize) -> (r: Option<(Option<String>, usize)>)
    requires
        pos <= bytes@.len(),
    ensures
        match parse_opt_text(bytes@.skip(pos as int)) {
            Some((o, rest)) => r is Some && r->Some_0.0.deep_view() == o && r->Some_0.1
                <= bytes@.len() && bytes@.skip(r->Some_0.1 as int) == rest,
            None => r is None,
        },
{
    reveal(parse_opt_text);
    if pos >= bytes.len() {
        return None;
    }
    let flag: u8 = bytes[pos];
    proof {
        let from = bytes@.skip(pos as int);
        assert(from[0] == flag);
        assert(from.skip(1) =~= bytes@.skip(pos + 1));
    }
    if flag == 0 {
        Some((None, pos + 1))
    } else if flag == 1 {
        match read_text(bytes, pos + 1) {
            Some((s, next)) => Some((Some(s), next)),
            None => None,
        }
    } else {
        None
    }
}

fn read_bool(bytes: &[u8], pos: usize) -> (r: Option<(bool, usize)>)
    requires
        pos <= bytes@.len(),
    ensures
        match parse_bool(bytes@.skip(pos as int)) {
            Some((v, rest)) => r is Some && r->Some_0.0 == v && r->Some_0.1 <= bytes@.len()
                && bytes@.skip(r->Some_0.1 as int) == rest,
            None => r is None,
        },
{
    if pos >= bytes.len() {
        return None;
    }
    let flag: u8 = bytes[pos];
    proof {
        let from = bytes@.skip(pos as int);
        assert(from[0] == flag);
        assert(from.skip(1) =~= bytes@.skip(pos + 1));
    }
    if flag == 0 {
        Some((false, pos + 1))
    } else if flag == 1 {
        Some((true, pos + 1))
    } else {
        None
    }
}

fn read_texts(bytes: &[u8], pos: usize) -> (r: Option<(Vec<String>, usize)>)
    requires
        pos <= bytes@.len(),
    ensures
        match parse_texts(bytes@.skip(pos as int)) {
            Some((v, rest)) => r is Some && r->Some_0.0.deep_view() == v && r->Some_0.1
                <= bytes@.len() && bytes@.skip(r->Some_0.1 as int) == rest,
            None => r is None,
        },
{
    let (n, start): (u64, usize) = match read_len(bytes, pos) {
        Some(found) => found,
        None => {
            return None;
        },
    };
    let ghost from = bytes@.skip(start as int);
    let mut items: Vec<String> = Vec::new();
    let mut cur: usize = start;
    let mut i: u64 = 0;
    assert(items.deep_view() =~= Seq::empty());
    while i < n
        invariant
            0 <= i <= n,
            cur <= bytes@.len(),
            pos <= bytes@.len(),
            parse_len(bytes@.skip(pos as int)) == Some((n as nat, from)),
            parse_text_items(from, i as nat) == Some((items.deep_view(), bytes@.skip(cur as int))),
        decreases n - i,
    {
        let ghost before = items.deep_view();
        match read_text(bytes, cur) {
            Some((s, next)) => {
                items.push(s);
                cur = next;
                assert(items.deep_view() =~= before.push(s@));
            },
            None => {
                proof {
                    assert(parse_text(bytes@.skip(cur as int)) is None);
                    assert(parse_text_items(from, (i + 1) as nat) is None);
                    lemma_text_items_stay_unreadable(from, (i + 1) as nat, n as nat);
                }
                return None;
            },
        }
        i = i + 1;
    }
    Some((items, cur))
}

fn read_dependency(bytes: &[u8], pos: usize) -> (r: Option<(Dependency, usize)>)
    requires
        pos <= bytes@.len(),
    ensures
        match parse_dependency(bytes@.skip(pos as int)) {
            Some((d, rest)) => r is Some && r->Some_0.0@ == d && r->Some_0.1 <= bytes@.len()
                && bytes@.skip(r->Some_0.1 as int) == rest,
            None => r is None,
        },
{
    let (purl, at_provider): (Option<String>, usize) = match read_opt_text(bytes, pos) {
        Some(found) => found,
        None => {
            return None;
        },
    };
    let (provider, at_package): (Option<String>, usize) = match read_opt_text(bytes, at_provider) {
        Some(found) => found,
        None => {
            return None;
        },
    };
    let (package, at_version): (Option<String>, usize) = match read_opt_text(bytes, at_package) {
        Some(found) => found,
        None => {
            return None;
        },
    };
    let (version, end): (Option<String>, usize) = match read_opt_text(bytes, at_version) {
        Some(found) => found,
        None => {
            return None;
        },
    };
    Some((Dependency { purl, provider, package, version }, end))
}

fn read_dependencies(bytes: &[u8], pos: usize) -> (r: Option<(Vec<Dependency>, usize)>)
    requires
        pos <= bytes@.len(),
    ensures
        match parse_dependencies(bytes@.skip(pos as int)) {
            Some((v, rest)) => r is Some && r->Some_0.0.deep_view() == v && r->Some_0.1
                <= bytes@.len() && bytes@.skip(r->Some_0.1 as int) == rest,
            None => r is None,
        },
{
    let (n, start): (u64, usize) = match read_len(bytes, pos) {
        Some(found) => found,
        None => {
            return None;
        },
    };
    let ghost from = bytes@.skip(start as int);
    let mut items: Vec<Dependency> = Vec::new();
    let mut cur: usize = start;
    let mut i: u64 = 0;
    assert(items.deep_view() =~= Seq::empty());
    while i < n
        invariant
            0 <= i <= n,
            cur <= bytes@.len(),
            pos <= bytes@.len(),
            parse_len(bytes@.skip(pos as int)) == Some((n as nat, from)),
            parse_dependency_items(from, i as nat) == Some(
                (items.deep_view(), bytes@.skip(cur as int)),
            ),
        decreases n - i,
    {
        let ghost before = items.deep_view();
        match read_dependency(bytes, cur) {
            Some((d, next)) => {
                items.push(d);
                cur = next;
                assert(items.deep_view() =~= before.push(d@));
            },
            None => {
                proof {
                    assert(parse_dependency(bytes@.skip(cur as int)) is None);
                    assert(parse_dependency_items(from, (i + 1) as nat) is None);
                    lemma_dependency_items_stay_unreadable(from, (i + 1) as nat, n as nat);
                }
                return None;
            },
        }
        i = i + 1;
    }
    Some((items, cur))
}

fn read_task(bytes: &[u8]) -> (r: Option<(ContainerTask, usize)>)
    ensures
        match parse_task(bytes@) {
            Some((t, rest)) => r is Some && r->Some_0.0@ == t && r->Some_0.1 <= bytes@.len()
                && bytes@.skip(r->Some_0.1 as int) == rest,
            None => r is None,
        },
{
    if bytes.len() == 0 {
        return None;
    }
    let tag: u8 = bytes[0];
    assert(bytes@.skip(0) =~= bytes@);
    if tag == TAG_COMMAND {
        let (name, at_params): (String, usize) = match read_text(bytes, 1) {
            Some(found) => found,
            None => {
                return None;
            },
        };
        let (params, at_flag): (Vec<String>, usize) = match read_texts(bytes, at_params) {
            Some(found) => found,
            None => {
                return None;
            },
        };
        let (reuse_pid, end): (bool, usize) = match read_bool(bytes, at_flag) {
            Some(found) => found,
            None => {
                return None;
            },
        };
        Some((ContainerTask::Command { name, params, reuse_pid }, end))
    } else if tag == TAG_RESOLVE {
        match read_dependencies(bytes, 1) {
            Some((list, next)) => Some((ContainerTask::ResolveDependencies(list), next)),
            None => None,
        }
    } else if tag == TAG_EXIT {
        Some((ContainerTask::Exit, 1))
    } else {
        None
    }
}

/// The error for bytes that are no task.
pub open spec fn malformed_task() -> ErrorView {
    ErrorView { kind: ErrorKindView::IPCError, msg: "Error receiving task"@ }
}

/// The model of the result of decoding.
pub open spec fn task_result(r: Result<ContainerTask, Error>) -> Result<
    ContainerTaskView,
    ErrorView,
> {
    match r {
        Ok(t) => Ok(t@),
        Err(e) => Err(e@),
    }
}

impl ContainerTask {
    /// The bytes of the task. The format can hold every task, and decoding
    /// the bytes gives the task back.
    pub fn encode(&self) -> (bytes: Vec<u8>)
        ensures
            bytes@ == encoding(self@),
            task_fits(self@),
            decoding(bytes@) == Some(self@),
    {
        let mut out: Vec<u8> = Vec::new();
        match self {
            ContainerTask::Command { name, params, reuse_pid } => {
                out.push(TAG_COMMAND);
                put_text(&mut out, name.as_str());
                put_texts(&mut out, params);
                out.push(if *reuse_pid {
                    1u8
                } else {
                    0u8
                });
                assert(out@ =~= encoding(self@));
            },
            ContainerTask::ResolveDependencies(list) => {
                out.push(TAG_RESOLVE);
                put_dependencies(&mut out, list);
                assert(out@ =~= encoding(self@));
            },
            ContainerTask::Exit => {
                out.push(TAG_EXIT);
                assert(out@ =~= encoding(self@));
            },
        }
        proof {
            lemma_task_round_trip(self@);
        }
        out
    }

    /// The task that the bytes hold. Bytes that are no task from the first
    /// to the last are a channel error.
    pub fn decode(bytes: &[u8]) -> (r: Result<ContainerTask, Error>)
        ensures
            task_result(r) == (match decoding(bytes@) {
                Some(t) => Ok(t),
                None => Err(malformed_task()),
            }),
    {
        match read_task(bytes) {
            Some((task, next)) => {
                if next == bytes.len() {
                    Ok(task)
                } else {
                    Err(Error::new_ipc("Error receiving task"))
                }
            },
            None => Err(Error::new_ipc("Error receiving task")),
        }
    }
}

} // verus!
