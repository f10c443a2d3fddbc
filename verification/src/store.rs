//! The persistent state store's document format: one length-prefixed text
//! document per workload, holding the full workload plan plus status and
//! timestamps. Encoding and parsing are both defined here and proved to
//! round-trip, so a reloaded registry is field-for-field the one written.
//!
//! Tokens: a number is written in decimal followed by one space; a string
//! is written as its character count followed by its raw characters, so no
//! escaping is ever needed.

use vstd::prelude::*;
use crate::strutil::{
    chars_to_string, chars_of_str, dec_chars, push_dec, read_u64, sp_read_u64, substring_chars,
    lemma_dec_chars_are_digits, lemma_scan_digits_fixpoint, lemma_val_of_dec_chars, is_dec_digit,
};

verus! {

/// The encoding of a number token.
pub open spec fn enc_u64(n: u64) -> Seq<char> {
    dec_chars(n as nat).push(' ')
}

/// The encoding of a string token: its length, then its raw characters.
pub open spec fn enc_str(x: Seq<char>) -> Seq<char> {
    enc_u64(x.len() as u64) + x
}

/// A ghost sequence is encodable when it fits the length token.
pub open spec fn str_fits(x: Seq<char>) -> bool {
    x.len() <= u64::MAX
}

/// Reading at a position where `enc_u64(n)` stands yields `n`.
pub proof fn lemma_read_enc_u64(s: Seq<char>, i: int, n: u64)
    requires
        0 <= i,
        i + enc_u64(n).len() <= s.len(),
        s.subrange(i, i + enc_u64(n).len()) == enc_u64(n),
    ensures
        sp_read_u64(s, i) == Some((n, i + enc_u64(n).len())),
{
    let ds = dec_chars(n as nat);
    let l = ds.len() as int;
    lemma_dec_chars_are_digits(n as nat);
    assert forall|k: int| i <= k < i + l implies is_dec_digit(#[trigger] s[k]) by {
        assert(s[k] == s.subrange(i, i + l + 1)[k - i]);
        assert(enc_u64(n)[k - i] == ds[k - i]);
    }
    assert(s[i + l] == s.subrange(i, i + l + 1)[l]);
    assert(s[i + l] == ' ');
    assert(!is_dec_digit(' '));
    lemma_scan_digits_fixpoint(s, i, i + l);
    assert(s.subrange(i, i + l) =~= ds) by {
        assert forall|k: int| 0 <= k < l implies s.subrange(i, i + l)[k] == ds[k] by {
            assert(s.subrange(i, i + l)[k] == s[i + k]);
            assert(s[i + k] == s.subrange(i, i + l + 1)[k]);
        }
    }
    lemma_val_of_dec_chars(n as nat);
}

/// Splits knowledge of a concatenated encoding into its two parts.
pub proof fn lemma_sub_split(s: Seq<char>, i: int, a: Seq<char>, b: Seq<char>)
    requires
        0 <= i,
        i + a.len() + b.len() <= s.len(),
        s.subrange(i, i + a.len() + b.len()) == a + b,
    ensures
        s.subrange(i, i + a.len()) == a,
        s.subrange(i + a.len(), i + a.len() + b.len()) == b,
{
    let whole = s.subrange(i, i + a.len() + b.len());
    assert(s.subrange(i, i + a.len()) =~= a) by {
        assert forall|k: int| 0 <= k < a.len() implies s.subrange(i, i + a.len())[k] == a[k] by {
            assert(s.subrange(i, i + a.len())[k] == s[i + k]);
            assert(whole[k] == s[i + k]);
            assert((a + b)[k] == a[k]);
        }
    }
    assert(s.subrange(i + a.len(), i + a.len() + b.len()) =~= b) by {
        assert forall|k: int| 0 <= k < b.len() implies s.subrange(
            i + a.len(),
            i + a.len() + b.len(),
        )[k] == b[k] by {
            assert(s.subrange(i + a.len(), i + a.len() + b.len())[k] == s[i + a.len() + k]);
            assert(whole[a.len() + k] == s[i + a.len() + k]);
            assert((a + b)[a.len() + k] == b[k]);
        }
    }
}

/// The result of reading a string token at `i`.
pub open spec fn sp_read_str(s: Seq<char>, i: int) -> Option<(Seq<char>, int)> {
    match sp_read_u64(s, i) {
        Option::Some(p) => {
            let n = p.0 as int;
            let j = p.1;
            if j + n <= s.len() {
                Option::Some((s.subrange(j, j + n), j + n))
            } else {
                Option::None
            }
        },
        Option::None => Option::None,
    }
}

/// Reading at a position where `enc_str(x)` stands yields `x`.
pub proof fn lemma_read_enc_str(s: Seq<char>, i: int, x: Seq<char>)
    requires
        0 <= i,
        str_fits(x),
        i + enc_str(x).len() <= s.len(),
        s.subrange(i, i + enc_str(x).len()) == enc_str(x),
    ensures
        sp_read_str(s, i) == Some((x, i + enc_str(x).len())),
{
    let n = x.len() as u64;
    lemma_sub_split(s, i, enc_u64(n), x);
    lemma_read_enc_u64(s, i, n);
}

/// Appends the encoding of a number token.
pub fn write_u64(buf: &mut Vec<char>, n: u64)
    ensures
        final(buf)@ == old(buf)@ + enc_u64(n),
{
    push_dec(buf, n);
    buf.push(' ');
    proof {
        assert(buf@ =~= old(buf)@ + enc_u64(n));
    }
}

/// Appends the encoding of a string token.
pub fn write_str(buf: &mut Vec<char>, x: &str)
    ensures
        final(buf)@ == old(buf)@ + enc_str(x@),
        str_fits(x@),
{
    let n = x.unicode_len();
    write_u64(buf, n as u64);
    let chars = chars_of_str(x);
    let mut i: usize = 0;
    let ghost mid = buf@;
    while i < chars.len()
        invariant
            chars@ == x@,
            0 <= i <= chars@.len(),
            buf@ == mid + x@.take(i as int),
        decreases chars@.len() - i,
    {
        buf.push(chars[i]);
        proof {
            assert(buf@ =~= mid + x@.take(i as int + 1));
        }
        i += 1;
    }
    proof {
        assert(x@.take(x@.len() as int) =~= x@);
        assert(buf@ =~= old(buf)@ + enc_str(x@));
    }
}

/// Reads a string token, exactly as `sp_read_str` does.
pub fn read_str(v: &Vec<char>, i: usize) -> (r: Option<(String, usize)>)
    requires
        i <= v@.len(),
    ensures
        r matches Some(p) ==> (sp_read_str(v@, i as int) matches Some(q) && q.0 == p.0@ && q.1
            == p.1 as int && p.1 <= v@.len()),
        r is None ==> sp_read_str(v@, i as int) is None,
{
    match read_u64(v, i) {
        Option::Some((n, j)) => {
            if n <= (v.len() - j) as u64 {
                let end = j + (n as usize);
                let sub = substring_chars(v, j, end);
                Option::Some((sub, end))
            } else {
                Option::None
            }
        },
        Option::None => Option::None,
    }
}

} // verus!

verus! {

/// The concatenated encoding of the items of `xs` from position `a` on.
pub open spec fn enc_items<A>(xs: Seq<A>, a: int, enc_item: spec_fn(A) -> Seq<char>) -> Seq<char>
    decreases xs.len() - a,
{
    if a < 0 || a >= xs.len() {
        Seq::empty()
    } else {
        enc_item(xs[a]) + enc_items(xs, a + 1, enc_item)
    }
}

/// Extending the encoded prefix by one item appends that item's encoding.
pub proof fn lemma_enc_items_snoc<A>(xs: Seq<A>, a: int, i: int, enc_item: spec_fn(A) -> Seq<char>)
    requires
        0 <= a <= i < xs.len(),
    ensures
        enc_items(xs.take(i + 1), a, enc_item) == enc_items(xs.take(i), a, enc_item) + enc_item(
            xs[i],
        ),
    decreases i - a,
{
    let short = xs.take(i);
    let long = xs.take(i + 1);
    if a == i {
        assert(enc_items(short, a, enc_item) =~= Seq::empty());
        assert(long[a] == xs[i]);
        assert(enc_items(long, a + 1, enc_item) =~= Seq::empty());
        assert(enc_items(long, a, enc_item) =~= enc_items(short, a, enc_item) + enc_item(xs[i]));
    } else {
        lemma_enc_items_snoc(xs, a + 1, i, enc_item);
        assert(long[a] == xs[a] && short[a] == xs[a]);
        assert(enc_items(long, a, enc_item) =~= enc_items(short, a, enc_item) + enc_item(xs[i]));
    }
}

/// The result of reading `count` consecutive items.
pub open spec fn sp_read_items<A>(
    s: Seq<char>,
    i: int,
    count: int,
    read_item: spec_fn(Seq<char>, int) -> Option<(A, int)>,
) -> Option<(Seq<A>, int)>
    decreases count,
{
    if count <= 0 {
        Option::Some((Seq::empty(), i))
    } else {
        match read_item(s, i) {
            Option::Some(p) => {
                match sp_read_items(s, p.1, count - 1, read_item) {
                    Option::Some(q) => Option::Some((seq![p.0] + q.0, q.1)),
                    Option::None => Option::None,
                }
            },
            Option::None => Option::None,
        }
    }
}

/// Reading at a position where the items of `xs` from `a` on stand encoded
/// yields exactly those items, provided the item reader inverts the item
/// encoder on this document.
pub proof fn lemma_read_enc_items<A>(
    s: Seq<char>,
    i: int,
    xs: Seq<A>,
    a: int,
    enc_item: spec_fn(A) -> Seq<char>,
    read_item: spec_fn(Seq<char>, int) -> Option<(A, int)>,
    ok: spec_fn(A) -> bool,
)
    requires
        0 <= a <= xs.len(),
        0 <= i,
        i + enc_items(xs, a, enc_item).len() <= s.len(),
        s.subrange(i, i + enc_items(xs, a, enc_item).len()) == enc_items(xs, a, enc_item),
        forall|k: int| a <= k < xs.len() ==> ok(#[trigger] xs[k]),
        forall|i2: int, x: A|
            #![trigger read_item(s, i2), enc_item(x)]
            0 <= i2 && ok(x) && i2 + enc_item(x).len() <= s.len() && s.subrange(
                i2,
                i2 + enc_item(x).len(),
            ) == enc_item(x) ==> read_item(s, i2) == Option::Some((x, i2 + enc_item(x).len())),
    ensures
        sp_read_items(s, i, xs.len() - a, read_item) == Option::Some(
            (xs.subrange(a, xs.len() as int), i + enc_items(xs, a, enc_item).len()),
        ),
    decreases xs.len() - a,
{
    if a == xs.len() {
        assert(xs.subrange(a, xs.len() as int) =~= Seq::<A>::empty());
    } else {
        let head = enc_item(xs[a]);
        let rest = enc_items(xs, a + 1, enc_item);
        lemma_sub_split(s, i, head, rest);
        assert(read_item(s, i) == Option::Some((xs[a], i + head.len())));
        lemma_read_enc_items(s, i + head.len(), xs, a + 1, enc_item, read_item, ok);
        assert(seq![xs[a]] + xs.subrange(a + 1, xs.len() as int) =~= xs.subrange(
            a,
            xs.len() as int,
        ));
    }
}

} // verus!

verus! {

/// The encoding of a boolean token.
pub open spec fn enc_bool(b: bool) -> Seq<char> {
    enc_u64(if b { 1u64 } else { 0u64 })
}

pub open spec fn sp_read_bool(s: Seq<char>, i: int) -> Option<(bool, int)> {
    match sp_read_u64(s, i) {
        Option::Some(p) => if p.0 == 1u64 {
            Option::Some((true, p.1))
        } else if p.0 == 0u64 {
            Option::Some((false, p.1))
        } else {
            Option::None
        },
        Option::None => Option::None,
    }
}

pub proof fn lemma_read_enc_bool(s: Seq<char>, i: int, b: bool)
    requires
        0 <= i,
        i + enc_bool(b).len() <= s.len(),
        s.subrange(i, i + enc_bool(b).len()) == enc_bool(b),
    ensures
        sp_read_bool(s, i) == Some((b, i + enc_bool(b).len())),
{
    lemma_read_enc_u64(s, i, if b { 1u64 } else { 0u64 });
}

/// The encoding of an optional number: a presence tag, then the value.
pub open spec fn enc_opt_u64(o: Option<u64>) -> Seq<char> {
    match o {
        Option::Some(n) => enc_u64(1) + enc_u64(n),
        Option::None => enc_u64(0),
    }
}

pub open spec fn sp_read_opt_u64(s: Seq<char>, i: int) -> Option<(Option<u64>, int)> {
    match sp_read_u64(s, i) {
        Option::Some(p) => if p.0 == 0u64 {
            Option::Some((Option::None, p.1))
        } else if p.0 == 1u64 {
            match sp_read_u64(s, p.1) {
                Option::Some(q) => Option::Some((Option::Some(q.0), q.1)),
                Option::None => Option::None,
            }
        } else {
            Option::None
        },
        Option::None => Option::None,
    }
}

pub proof fn lemma_read_enc_opt_u64(s: Seq<char>, i: int, o: Option<u64>)
    requires
        0 <= i,
        i + enc_opt_u64(o).len() <= s.len(),
        s.subrange(i, i + enc_opt_u64(o).len()) == enc_opt_u64(o),
    ensures
        sp_read_opt_u64(s, i) == Some((o, i + enc_opt_u64(o).len())),
{
    match o {
        Option::Some(n) => {
            lemma_sub_split(s, i, enc_u64(1), enc_u64(n));
            lemma_read_enc_u64(s, i, 1);
            lemma_read_enc_u64(s, i + enc_u64(1).len(), n);
        },
        Option::None => {
            lemma_read_enc_u64(s, i, 0);
        },
    }
}

/// The encoding of an optional string.
pub open spec fn enc_opt_str(o: Option<Seq<char>>) -> Seq<char> {
    match o {
        Option::Some(x) => enc_u64(1) + enc_str(x),
        Option::None => enc_u64(0),
    }
}

pub open spec fn sp_read_opt_str(s: Seq<char>, i: int) -> Option<(Option<Seq<char>>, int)> {
    match sp_read_u64(s, i) {
        Option::Some(p) => if p.0 == 0u64 {
            Option::Some((Option::None, p.1))
        } else if p.0 == 1u64 {
            match sp_read_str(s, p.1) {
                Option::Some(q) => Option::Some((Option::Some(q.0), q.1)),
                Option::None => Option::None,
            }
        } else {
            Option::None
        },
        Option::None => Option::None,
    }
}

pub open spec fn opt_str_fits(o: Option<Seq<char>>) -> bool {
    match o {
        Option::Some(x) => str_fits(x),
        Option::None => true,
    }
}

pub proof fn lemma_read_enc_opt_str(s: Seq<char>, i: int, o: Option<Seq<char>>)
    requires
        0 <= i,
        opt_str_fits(o),
        i + enc_opt_str(o).len() <= s.len(),
        s.subrange(i, i + enc_opt_str(o).len()) == enc_opt_str(o),
    ensures
        sp_read_opt_str(s, i) == Some((o, i + enc_opt_str(o).len())),
{
    match o {
        Option::Some(x) => {
            lemma_sub_split(s, i, enc_u64(1), enc_str(x));
            lemma_read_enc_u64(s, i, 1);
            lemma_read_enc_str(s, i + enc_u64(1).len(), x);
        },
        Option::None => {
            lemma_read_enc_u64(s, i, 0);
        },
    }
}

} // verus!

verus! {

use crate::workload::{
    BindType, ContainerImageV, ContainerStatusV, GameWorkloadSpecV, MountPointV, NetworkModeV,
    WorkloadRecordV,
};

/// The tag of a bind type.
pub open spec fn bind_tag(b: BindType) -> u64 {
    match b {
        BindType::Bind => 0u64,
        BindType::Volume => 1u64,
        BindType::TmpFs => 2u64,
        BindType::DeviceNode => 3u64,
    }
}

pub open spec fn sp_bind_of_tag(t: u64) -> Option<BindType> {
    if t == 0u64 {
        Option::Some(BindType::Bind)
    } else if t == 1u64 {
        Option::Some(BindType::Volume)
    } else if t == 2u64 {
        Option::Some(BindType::TmpFs)
    } else if t == 3u64 {
        Option::Some(BindType::DeviceNode)
    } else {
        Option::None
    }
}

/// The encoding of one mount point.
pub open spec fn enc_mount(m: MountPointV) -> Seq<char> {
    enc_str(m.host_path) + (enc_str(m.container_path) + (enc_bool(m.read_only) + enc_u64(
        bind_tag(m.bind_type),
    )))
}

pub open spec fn sp_read_mount(s: Seq<char>, i: int) -> Option<(MountPointV, int)> {
    match sp_read_str(s, i) {
        Option::Some(h) => match sp_read_str(s, h.1) {
            Option::Some(c) => match sp_read_bool(s, c.1) {
                Option::Some(ro) => match sp_read_u64(s, ro.1) {
                    Option::Some(t) => match sp_bind_of_tag(t.0) {
                        Option::Some(b) => Option::Some(
                            (
                                MountPointV {
                                    host_path: h.0,
                                    container_path: c.0,
                                    read_only: ro.0,
                                    bind_type: b,
                                },
                                t.1,
                            ),
                        ),
                        Option::None => Option::None,
                    },
                    Option::None => Option::None,
                },
                Option::None => Option::None,
            },
            Option::None => Option::None,
        },
        Option::None => Option::None,
    }
}

pub open spec fn mount_fits(m: MountPointV) -> bool {
    str_fits(m.host_path) && str_fits(m.container_path)
}

pub proof fn lemma_read_enc_mount(s: Seq<char>, i: int, m: MountPointV)
    requires
        0 <= i,
        mount_fits(m),
        i + enc_mount(m).len() <= s.len(),
        s.subrange(i, i + enc_mount(m).len()) == enc_mount(m),
    ensures
        sp_read_mount(s, i) == Some((m, i + enc_mount(m).len())),
{
    let e1 = enc_str(m.host_path);
    let e2 = enc_str(m.container_path);
    let e3 = enc_bool(m.read_only);
    let e4 = enc_u64(bind_tag(m.bind_type));
    lemma_sub_split(s, i, e1, e2 + (e3 + e4));
    lemma_read_enc_str(s, i, m.host_path);
    let p1 = i + e1.len();
    lemma_sub_split(s, p1, e2, e3 + e4);
    lemma_read_enc_str(s, p1, m.container_path);
    let p2 = p1 + e2.len();
    lemma_sub_split(s, p2, e3, e4);
    lemma_read_enc_bool(s, p2, m.read_only);
    let p3 = p2 + e3.len();
    lemma_read_enc_u64(s, p3, bind_tag(m.bind_type));
}

/// The encoding of the network mode.
pub open spec fn enc_net(n: NetworkModeV) -> Seq<char> {
    match n {
        NetworkModeV::Bridge => enc_u64(0),
        NetworkModeV::Host => enc_u64(1),
        NetworkModeV::Disabled => enc_u64(2),
        NetworkModeV::Custom(x) => enc_u64(3) + enc_str(x),
    }
}

pub open spec fn sp_read_net(s: Seq<char>, i: int) -> Option<(NetworkModeV, int)> {
    match sp_read_u64(s, i) {
        Option::Some(p) => if p.0 == 0u64 {
            Option::Some((NetworkModeV::Bridge, p.1))
        } else if p.0 == 1u64 {
            Option::Some((NetworkModeV::Host, p.1))
        } else if p.0 == 2u64 {
            Option::Some((NetworkModeV::Disabled, p.1))
        } else if p.0 == 3u64 {
            match sp_read_str(s, p.1) {
                Option::Some(q) => Option::Some((NetworkModeV::Custom(q.0), q.1)),
                Option::None => Option::None,
            }
        } else {
            Option::None
        },
        Option::None => Option::None,
    }
}

pub open spec fn net_fits(n: NetworkModeV) -> bool {
    match n {
        NetworkModeV::Custom(x) => str_fits(x),
        _ => true,
    }
}

pub proof fn lemma_read_enc_net(s: Seq<char>, i: int, n: NetworkModeV)
    requires
        0 <= i,
        net_fits(n),
        i + enc_net(n).len() <= s.len(),
        s.subrange(i, i + enc_net(n).len()) == enc_net(n),
    ensures
        sp_read_net(s, i) == Some((n, i + enc_net(n).len())),
{
    match n {
        NetworkModeV::Bridge => {
            lemma_read_enc_u64(s, i, 0);
        },
        NetworkModeV::Host => {
            lemma_read_enc_u64(s, i, 1);
        },
        NetworkModeV::Disabled => {
            lemma_read_enc_u64(s, i, 2);
        },
        NetworkModeV::Custom(x) => {
            lemma_sub_split(s, i, enc_u64(3), enc_str(x));
            lemma_read_enc_u64(s, i, 3);
            lemma_read_enc_str(s, i + enc_u64(3).len(), x);
        },
    }
}

/// The encoding of a workload status.
pub open spec fn enc_status(st: ContainerStatusV) -> Seq<char> {
    match st {
        ContainerStatusV::Creating => enc_u64(0),
        ContainerStatusV::Stopped => enc_u64(1),
        ContainerStatusV::Running => enc_u64(2),
        ContainerStatusV::Paused => enc_u64(3),
        ContainerStatusV::Updating => enc_u64(4),
        ContainerStatusV::Error(msg) => enc_u64(5) + enc_str(msg),
    }
}

pub open spec fn sp_read_status(s: Seq<char>, i: int) -> Option<(ContainerStatusV, int)> {
    match sp_read_u64(s, i) {
        Option::Some(p) => if p.0 == 0u64 {
            Option::Some((ContainerStatusV::Creating, p.1))
        } else if p.0 == 1u64 {
            Option::Some((ContainerStatusV::Stopped, p.1))
        } else if p.0 == 2u64 {
            Option::Some((ContainerStatusV::Running, p.1))
        } else if p.0 == 3u64 {
            Option::Some((ContainerStatusV::Paused, p.1))
        } else if p.0 == 4u64 {
            Option::Some((ContainerStatusV::Updating, p.1))
        } else if p.0 == 5u64 {
            match sp_read_str(s, p.1) {
                Option::Some(q) => Option::Some((ContainerStatusV::Error(q.0), q.1)),
                Option::None => Option::None,
            }
        } else {
            Option::None
        },
        Option::None => Option::None,
    }
}

pub open spec fn status_fits(st: ContainerStatusV) -> bool {
    match st {
        ContainerStatusV::Error(msg) => str_fits(msg),
        _ => true,
    }
}

pub proof fn lemma_read_enc_status(s: Seq<char>, i: int, st: ContainerStatusV)
    requires
        0 <= i,
        status_fits(st),
        i + enc_status(st).len() <= s.len(),
        s.subrange(i, i + enc_status(st).len()) == enc_status(st),
    ensures
        sp_read_status(s, i) == Some((st, i + enc_status(st).len())),
{
    match st {
        ContainerStatusV::Creating => {
            lemma_read_enc_u64(s, i, 0);
        },
        ContainerStatusV::Stopped => {
            lemma_read_enc_u64(s, i, 1);
        },
        ContainerStatusV::Running => {
            lemma_read_enc_u64(s, i, 2);
        },
        ContainerStatusV::Paused => {
            lemma_read_enc_u64(s, i, 3);
        },
        ContainerStatusV::Updating => {
            lemma_read_enc_u64(s, i, 4);
        },
        ContainerStatusV::Error(msg) => {
            lemma_sub_split(s, i, enc_u64(5), enc_str(msg));
            lemma_read_enc_u64(s, i, 5);
            lemma_read_enc_str(s, i + enc_u64(5).len(), msg);
        },
    }
}

/// The encoding of an environment pair.
pub open spec fn enc_pair(p: (Seq<char>, Seq<char>)) -> Seq<char> {
    enc_str(p.0) + enc_str(p.1)
}

pub open spec fn sp_read_pair(s: Seq<char>, i: int) -> Option<((Seq<char>, Seq<char>), int)> {
    match sp_read_str(s, i) {
        Option::Some(k) => match sp_read_str(s, k.1) {
            Option::Some(v) => Option::Some(((k.0, v.0), v.1)),
            Option::None => Option::None,
        },
        Option::None => Option::None,
    }
}

pub open spec fn pair_fits(p: (Seq<char>, Seq<char>)) -> bool {
    str_fits(p.0) && str_fits(p.1)
}

pub proof fn lemma_read_enc_pair(s: Seq<char>, i: int, p: (Seq<char>, Seq<char>))
    requires
        0 <= i,
        pair_fits(p),
        i + enc_pair(p).len() <= s.len(),
        s.subrange(i, i + enc_pair(p).len()) == enc_pair(p),
    ensures
        sp_read_pair(s, i) == Some((p, i + enc_pair(p).len())),
{
    lemma_sub_split(s, i, enc_str(p.0), enc_str(p.1));
    lemma_read_enc_str(s, i, p.0);
    lemma_read_enc_str(s, i + enc_str(p.0).len(), p.1);
}

} // verus!

verus! {

/// The canonical item-encoder, item-reader and fit predicates used by the
/// counted lists, each defined once so every use names the same function.
pub open spec fn enc_str_fn() -> spec_fn(Seq<char>) -> Seq<char> {
    |x: Seq<char>| enc_str(x)
}

pub open spec fn read_str_fn() -> spec_fn(Seq<char>, int) -> Option<(Seq<char>, int)> {
    |s: Seq<char>, i: int| sp_read_str(s, i)
}

pub open spec fn str_ok_fn() -> spec_fn(Seq<char>) -> bool {
    |x: Seq<char>| str_fits(x)
}

pub open spec fn enc_pair_fn() -> spec_fn((Seq<char>, Seq<char>)) -> Seq<char> {
    |p: (Seq<char>, Seq<char>)| enc_pair(p)
}

pub open spec fn read_pair_fn() -> spec_fn(Seq<char>, int) -> Option<(
    (Seq<char>, Seq<char>),
    int,
)> {
    |s: Seq<char>, i: int| sp_read_pair(s, i)
}

pub open spec fn pair_ok_fn() -> spec_fn((Seq<char>, Seq<char>)) -> bool {
    |p: (Seq<char>, Seq<char>)| pair_fits(p)
}

pub open spec fn enc_mount_fn() -> spec_fn(MountPointV) -> Seq<char> {
    |m: MountPointV| enc_mount(m)
}

pub open spec fn read_mount_fn() -> spec_fn(Seq<char>, int) -> Option<(MountPointV, int)> {
    |s: Seq<char>, i: int| sp_read_mount(s, i)
}

pub open spec fn mount_ok_fn() -> spec_fn(MountPointV) -> bool {
    |m: MountPointV| mount_fits(m)
}

/// The encoding of a counted list: the item count, then the items.
pub open spec fn enc_list<A>(xs: Seq<A>, enc_item: spec_fn(A) -> Seq<char>) -> Seq<char> {
    enc_u64(xs.len() as u64) + enc_items(xs, 0, enc_item)
}

pub open spec fn sp_read_list<A>(
    s: Seq<char>,
    i: int,
    read_item: spec_fn(Seq<char>, int) -> Option<(A, int)>,
) -> Option<(Seq<A>, int)> {
    match sp_read_u64(s, i) {
        Option::Some(p) => sp_read_items(s, p.1, p.0 as int, read_item),
        Option::None => Option::None,
    }
}

/// Reading a counted list at its encoding yields the original items.
pub proof fn lemma_read_enc_list<A>(
    s: Seq<char>,
    i: int,
    xs: Seq<A>,
    enc_item: spec_fn(A) -> Seq<char>,
    read_item: spec_fn(Seq<char>, int) -> Option<(A, int)>,
    ok: spec_fn(A) -> bool,
)
    requires
        0 <= i,
        xs.len() <= u64::MAX,
        i + enc_list(xs, enc_item).len() <= s.len(),
        s.subrange(i, i + enc_list(xs, enc_item).len()) == enc_list(xs, enc_item),
        forall|k: int| 0 <= k < xs.len() ==> ok(#[trigger] xs[k]),
        forall|i2: int, x: A|
            #![trigger read_item(s, i2), enc_item(x)]
            0 <= i2 && ok(x) && i2 + enc_item(x).len() <= s.len() && s.subrange(
                i2,
                i2 + enc_item(x).len(),
            ) == enc_item(x) ==> read_item(s, i2) == Option::Some((x, i2 + enc_item(x).len())),
    ensures
        sp_read_list(s, i, read_item) == Option::Some((xs, i + enc_list(xs, enc_item).len())),
{
    let count = xs.len() as u64;
    lemma_sub_split(s, i, enc_u64(count), enc_items(xs, 0, enc_item));
    lemma_read_enc_u64(s, i, count);
    let j = i + enc_u64(count).len();
    lemma_read_enc_items(s, j, xs, 0, enc_item, read_item, ok);
    assert(xs.subrange(0, xs.len() as int) =~= xs);
}

/// The encoding of a container image reference.
pub open spec fn enc_image(iv: ContainerImageV) -> Seq<char> {
    enc_str(iv.name) + (enc_str(iv.tag) + (enc_opt_str(iv.digest) + enc_str(iv.platform)))
}

pub open spec fn sp_read_image(s: Seq<char>, i: int) -> Option<(ContainerImageV, int)> {
    match sp_read_str(s, i) {
        Option::Some(n) => match sp_read_str(s, n.1) {
            Option::Some(t) => match sp_read_opt_str(s, t.1) {
                Option::Some(d) => match sp_read_str(s, d.1) {
                    Option::Some(p) => Option::Some(
                        (ContainerImageV { name: n.0, tag: t.0, digest: d.0, platform: p.0 }, p.1),
                    ),
                    Option::None => Option::None,
                },
                Option::None => Option::None,
            },
            Option::None => Option::None,
        },
        Option::None => Option::None,
    }
}

pub open spec fn image_fits(iv: ContainerImageV) -> bool {
    str_fits(iv.name) && str_fits(iv.tag) && opt_str_fits(iv.digest) && str_fits(iv.platform)
}

pub proof fn lemma_read_enc_image(s: Seq<char>, i: int, iv: ContainerImageV)
    requires
        0 <= i,
        image_fits(iv),
        i + enc_image(iv).len() <= s.len(),
        s.subrange(i, i + enc_image(iv).len()) == enc_image(iv),
    ensures
        sp_read_image(s, i) == Some((iv, i + enc_image(iv).len())),
{
    let e1 = enc_str(iv.name);
    let e2 = enc_str(iv.tag);
    let e3 = enc_opt_str(iv.digest);
    let e4 = enc_str(iv.platform);
    lemma_sub_split(s, i, e1, e2 + (e3 + e4));
    lemma_read_enc_str(s, i, iv.name);
    let p1 = i + e1.len();
    lemma_sub_split(s, p1, e2, e3 + e4);
    lemma_read_enc_str(s, p1, iv.tag);
    let p2 = p1 + e2.len();
    lemma_sub_split(s, p2, e3, e4);
    lemma_read_enc_opt_str(s, p2, iv.digest);
    let p3 = p2 + e3.len();
    lemma_read_enc_str(s, p3, iv.platform);
}

/// The encoding of the resource limits.
pub open spec fn enc_limits(l: crate::workload::ResourceLimits) -> Seq<char> {
    enc_opt_u64(l.memory_mb) + (enc_opt_u64(
        match l.cpu_cores {
            Option::Some(c) => Option::Some(c as u64),
            Option::None => Option::None,
        },
    ) + (enc_opt_u64(l.disk_mb) + enc_bool(l.gpu_access)))
}

pub open spec fn sp_read_limits(s: Seq<char>, i: int) -> Option<(
    crate::workload::ResourceLimits,
    int,
)> {
    match sp_read_opt_u64(s, i) {
        Option::Some(m) => match sp_read_opt_u64(s, m.1) {
            Option::Some(c) => {
                let cpu_ok = match c.0 {
                    Option::Some(v) => v <= u32::MAX,
                    Option::None => true,
                };
                if cpu_ok {
                    match sp_read_opt_u64(s, c.1) {
                        Option::Some(d) => match sp_read_bool(s, d.1) {
                            Option::Some(g) => Option::Some(
                                (
                                    crate::workload::ResourceLimits {
                                        memory_mb: m.0,
                                        cpu_cores: match c.0 {
                                            Option::Some(v) => Option::Some(v as u32),
                                            Option::None => Option::None,
                                        },
                                        disk_mb: d.0,
                                        gpu_access: g.0,
                                    },
                                    g.1,
                                ),
                            ),
                            Option::None => Option::None,
                        },
                        Option::None => Option::None,
                    }
                } else {
                    Option::None
                }
            },
            Option::None => Option::None,
        },
        Option::None => Option::None,
    }
}

pub proof fn lemma_read_enc_limits(s: Seq<char>, i: int, l: crate::workload::ResourceLimits)
    requires
        0 <= i,
        i + enc_limits(l).len() <= s.len(),
        s.subrange(i, i + enc_limits(l).len()) == enc_limits(l),
    ensures
        sp_read_limits(s, i) == Some((l, i + enc_limits(l).len())),
{
    let cpu64 = match l.cpu_cores {
        Option::Some(c) => Option::Some(c as u64),
        Option::None => Option::<u64>::None,
    };
    let e1 = enc_opt_u64(l.memory_mb);
    let e2 = enc_opt_u64(cpu64);
    let e3 = enc_opt_u64(l.disk_mb);
    let e4 = enc_bool(l.gpu_access);
    lemma_sub_split(s, i, e1, e2 + (e3 + e4));
    lemma_read_enc_opt_u64(s, i, l.memory_mb);
    let p1 = i + e1.len();
    lemma_sub_split(s, p1, e2, e3 + e4);
    lemma_read_enc_opt_u64(s, p1, cpu64);
    let p2 = p1 + e2.len();
    lemma_sub_split(s, p2, e3, e4);
    lemma_read_enc_opt_u64(s, p2, l.disk_mb);
    let p3 = p2 + e3.len();
    lemma_read_enc_bool(s, p3, l.gpu_access);
}

} // verus!

verus! {

/// The first half of a workload plan's encoding: identity, image and
/// runtime.
#[verifier::opaque]
pub open spec fn enc_spec_a(sv: GameWorkloadSpecV) -> Seq<char> {
    enc_str(sv.id) + (enc_str(sv.name) + (enc_str(sv.game_id) + (enc_image(sv.base_image)
        + (enc_str(sv.runtime_version) + enc_list(sv.graphics_layers, enc_str_fn())))))
}

/// The second half: dependencies, environment, mounts, network, resources
/// and creation time.
#[verifier::opaque]
pub open spec fn enc_spec_b(sv: GameWorkloadSpecV) -> Seq<char> {
    enc_list(sv.system_dependencies, enc_str_fn()) + (enc_list(
        sv.environment_variables,
        enc_pair_fn(),
    ) + (enc_list(sv.mount_points, enc_mount_fn()) + (enc_net(sv.network_mode) + (enc_limits(
        sv.resource_limits,
    ) + enc_u64(sv.created_at)))))
}

/// The encoding of a full workload plan.
pub open spec fn enc_spec(sv: GameWorkloadSpecV) -> Seq<char> {
    enc_spec_a(sv) + enc_spec_b(sv)
}

#[verifier::opaque]
pub open spec fn sp_read_spec(s: Seq<char>, i: int) -> Option<(GameWorkloadSpecV, int)> {
    match sp_read_str(s, i) {
        Option::Some(id) => match sp_read_str(s, id.1) {
            Option::Some(name) => match sp_read_str(s, name.1) {
                Option::Some(gid) => match sp_read_image(s, gid.1) {
                    Option::Some(img) => match sp_read_str(s, img.1) {
                        Option::Some(rv) => match sp_read_list(s, rv.1, read_str_fn()) {
                            Option::Some(layers) => match sp_read_list(
                                s,
                                layers.1,
                                read_str_fn(),
                            ) {
                                Option::Some(deps) => match sp_read_list(
                                    s,
                                    deps.1,
                                    read_pair_fn(),
                                ) {
                                    Option::Some(env) => match sp_read_list(
                                        s,
                                        env.1,
                                        read_mount_fn(),
                                    ) {
                                        Option::Some(mounts) => match sp_read_net(s, mounts.1) {
                                            Option::Some(net) => match sp_read_limits(s, net.1) {
                                                Option::Some(lim) => match sp_read_u64(s, lim.1) {
                                                    Option::Some(ts) => Option::Some(
                                                        (
                                                            GameWorkloadSpecV {
                                                                id: id.0,
                                                                name: name.0,
                                                                game_id: gid.0,
                                                                base_image: img.0,
                                                                runtime_version: rv.0,
                                                                graphics_layers: layers.0,
                                                                system_dependencies: deps.0,
                                                                environment_variables: env.0,
                                                                mount_points: mounts.0,
                                                                network_mode: net.0,
                                                                resource_limits: lim.0,
                                                                created_at: ts.0,
                                                            },
                                                            ts.1,
                                                        ),
                                                    ),
                                                    Option::None => Option::None,
                                                },
                                                Option::None => Option::None,
                                            },
                                            Option::None => Option::None,
                                        },
                                        Option::None => Option::None,
                                    },
                                    Option::None => Option::None,
                                },
                                Option::None => Option::None,
                            },
                            Option::None => Option::None,
                        },
                        Option::None => Option::None,
                    },
                    Option::None => Option::None,
                },
                Option::None => Option::None,
            },
            Option::None => Option::None,
        },
        Option::None => Option::None,
    }
}

/// A workload plan is encodable when every string and list fits its length
/// token. Every plan built from real values does.
pub open spec fn spec_fits(sv: GameWorkloadSpecV) -> bool {
    &&& str_fits(sv.id)
    &&& str_fits(sv.name)
    &&& str_fits(sv.game_id)
    &&& image_fits(sv.base_image)
    &&& str_fits(sv.runtime_version)
    &&& sv.graphics_layers.len() <= u64::MAX
    &&& forall|k: int|
        0 <= k < sv.graphics_layers.len() ==> str_fits(#[trigger] sv.graphics_layers[k])
    &&& sv.system_dependencies.len() <= u64::MAX
    &&& forall|k: int|
        0 <= k < sv.system_dependencies.len() ==> str_fits(#[trigger] sv.system_dependencies[k])
    &&& sv.environment_variables.len() <= u64::MAX
    &&& forall|k: int|
        0 <= k < sv.environment_variables.len() ==> pair_fits(
            #[trigger] sv.environment_variables[k],
        )
    &&& sv.mount_points.len() <= u64::MAX
    &&& forall|k: int| 0 <= k < sv.mount_points.len() ==> mount_fits(#[trigger] sv.mount_points[k])
    &&& net_fits(sv.network_mode)
}

/// Reading a workload plan at its encoding yields the plan, field for field.
#[verifier::rlimit(100)]
#[verifier::spinoff_prover]
pub proof fn lemma_read_enc_spec(s: Seq<char>, i: int, sv: GameWorkloadSpecV)
    requires
        0 <= i,
        spec_fits(sv),
        i + enc_spec(sv).len() <= s.len(),
        s.subrange(i, i + enc_spec(sv).len()) == enc_spec(sv),
    ensures
        sp_read_spec(s, i) == Some((sv, i + enc_spec(sv).len())),
{
    reveal(enc_spec_a);
    reveal(enc_spec_b);
    reveal(sp_read_spec);
    assert(enc_spec(sv).len() == enc_spec_a(sv).len() + enc_spec_b(sv).len());
    let e1 = enc_str(sv.id);
    let e2 = enc_str(sv.name);
    let e3 = enc_str(sv.game_id);
    let e4 = enc_image(sv.base_image);
    let e5 = enc_str(sv.runtime_version);
    let e6 = enc_list(sv.graphics_layers, enc_str_fn());
    let e7 = enc_list(sv.system_dependencies, enc_str_fn());
    let e8 = enc_list(sv.environment_variables, enc_pair_fn());
    let e9 = enc_list(sv.mount_points, enc_mount_fn());
    let e10 = enc_net(sv.network_mode);
    let e11 = enc_limits(sv.resource_limits);
    let e12 = enc_u64(sv.created_at);
    assert(s.subrange(i, i + enc_spec(sv).len()) =~= e1 + (e2 + (e3 + (e4 + (e5 + (e6 + (e7 + (
    e8 + (e9 + (e10 + (e11 + e12)))))))))));
    lemma_sub_split(s, i, e1, e2 + (e3 + (e4 + (e5 + (e6 + (e7 + (e8 + (e9 + (e10 + (e11
        + e12))))))))));
    lemma_read_enc_str(s, i, sv.id);
    let p1 = i + e1.len();
    lemma_sub_split(s, p1, e2, e3 + (e4 + (e5 + (e6 + (e7 + (e8 + (e9 + (e10 + (e11 + e12)))))))));
    lemma_read_enc_str(s, p1, sv.name);
    let p2 = p1 + e2.len();
    lemma_sub_split(s, p2, e3, e4 + (e5 + (e6 + (e7 + (e8 + (e9 + (e10 + (e11 + e12))))))));
    lemma_read_enc_str(s, p2, sv.game_id);
    let p3 = p2 + e3.len();
    lemma_sub_split(s, p3, e4, e5 + (e6 + (e7 + (e8 + (e9 + (e10 + (e11 + e12)))))));
    lemma_read_enc_image(s, p3, sv.base_image);
    let p4 = p3 + e4.len();
    lemma_sub_split(s, p4, e5, e6 + (e7 + (e8 + (e9 + (e10 + (e11 + e12))))));
    lemma_read_enc_str(s, p4, sv.runtime_version);
    let p5 = p4 + e5.len();
    lemma_sub_split(s, p5, e6, e7 + (e8 + (e9 + (e10 + (e11 + e12)))));
    assert forall|i2: int, x: Seq<char>|
        #![trigger read_str_fn()(s, i2), enc_str_fn()(x)]
        0 <= i2 && str_ok_fn()(x) && i2 + enc_str_fn()(x).len() <= s.len() && s.subrange(
            i2,
            i2 + enc_str_fn()(x).len(),
        ) == enc_str_fn()(x) implies read_str_fn()(s, i2) == Option::Some(
        (x, i2 + enc_str_fn()(x).len()),
    ) by {
        lemma_read_enc_str(s, i2, x);
    }
    lemma_read_enc_list(s, p5, sv.graphics_layers, enc_str_fn(), read_str_fn(), str_ok_fn());
    let p6 = p5 + e6.len();
    lemma_sub_split(s, p6, e7, e8 + (e9 + (e10 + (e11 + e12))));
    lemma_read_enc_list(s, p6, sv.system_dependencies, enc_str_fn(), read_str_fn(), str_ok_fn());
    let p7 = p6 + e7.len();
    lemma_sub_split(s, p7, e8, e9 + (e10 + (e11 + e12)));
    assert forall|i2: int, x: (Seq<char>, Seq<char>)|
        #![trigger read_pair_fn()(s, i2), enc_pair_fn()(x)]
        0 <= i2 && pair_ok_fn()(x) && i2 + enc_pair_fn()(x).len() <= s.len() && s.subrange(
            i2,
            i2 + enc_pair_fn()(x).len(),
        ) == enc_pair_fn()(x) implies read_pair_fn()(s, i2) == Option::Some(
        (x, i2 + enc_pair_fn()(x).len()),
    ) by {
        lemma_read_enc_pair(s, i2, x);
    }
    lemma_read_enc_list(
        s,
        p7,
        sv.environment_variables,
        enc_pair_fn(),
        read_pair_fn(),
        pair_ok_fn(),
    );
    let p8 = p7 + e8.len();
    lemma_sub_split(s, p8, e9, e10 + (e11 + e12));
    assert forall|i2: int, x: MountPointV|
        #![trigger read_mount_fn()(s, i2), enc_mount_fn()(x)]
        0 <= i2 && mount_ok_fn()(x) && i2 + enc_mount_fn()(x).len() <= s.len() && s.subrange(
            i2,
            i2 + enc_mount_fn()(x).len(),
        ) == enc_mount_fn()(x) implies read_mount_fn()(s, i2) == Option::Some(
        (x, i2 + enc_mount_fn()(x).len()),
    ) by {
        lemma_read_enc_mount(s, i2, x);
    }
    lemma_read_enc_list(s, p8, sv.mount_points, enc_mount_fn(), read_mount_fn(), mount_ok_fn());
    let p9 = p8 + e9.len();
    lemma_sub_split(s, p9, e10, e11 + e12);
    lemma_read_enc_net(s, p9, sv.network_mode);
    let p10 = p9 + e10.len();
    lemma_sub_split(s, p10, e11, e12);
    lemma_read_enc_limits(s, p10, sv.resource_limits);
    let p11 = p10 + e11.len();
    lemma_read_enc_u64(s, p11, sv.created_at);
}

/// The encoding of a full workload record: the plan, the status, and the
/// mutable timestamps and size.
pub open spec fn enc_record(rv: WorkloadRecordV) -> Seq<char> {
    enc_spec(rv.workload) + (enc_status(rv.status) + (enc_opt_u64(rv.last_used) + enc_opt_u64(
        rv.size_mb,
    )))
}

pub open spec fn sp_read_record(s: Seq<char>, i: int) -> Option<(WorkloadRecordV, int)> {
    match sp_read_spec(s, i) {
        Option::Some(w) => match sp_read_status(s, w.1) {
            Option::Some(st) => match sp_read_opt_u64(s, st.1) {
                Option::Some(lu) => match sp_read_opt_u64(s, lu.1) {
                    Option::Some(sz) => Option::Some(
                        (
                            WorkloadRecordV {
                                workload: w.0,
                                status: st.0,
                                last_used: lu.0,
                                size_mb: sz.0,
                            },
                            sz.1,
                        ),
                    ),
                    Option::None => Option::None,
                },
                Option::None => Option::None,
            },
            Option::None => Option::None,
        },
        Option::None => Option::None,
    }
}

pub open spec fn record_fits(rv: WorkloadRecordV) -> bool {
    spec_fits(rv.workload) && status_fits(rv.status)
}

/// A whole document parses when it is exactly one record's encoding.
pub open spec fn sp_parse_record(s: Seq<char>) -> Option<WorkloadRecordV> {
    match sp_read_record(s, 0) {
        Option::Some(p) => if p.1 == s.len() {
            Option::Some(p.0)
        } else {
            Option::None
        },
        Option::None => Option::None,
    }
}

/// Round trip: parsing the encoding of any encodable record yields that
/// record, field for field.
#[verifier::rlimit(100)]
#[verifier::spinoff_prover]
pub proof fn lemma_record_roundtrip(rv: WorkloadRecordV)
    requires
        record_fits(rv),
    ensures
        sp_parse_record(enc_record(rv)) == Some(rv),
{
    let s = enc_record(rv);
    let e1 = enc_spec(rv.workload);
    let e2 = enc_status(rv.status);
    let e3 = enc_opt_u64(rv.last_used);
    let e4 = enc_opt_u64(rv.size_mb);
    assert(s.subrange(0, s.len() as int) =~= s);
    lemma_sub_split(s, 0, e1, e2 + (e3 + e4));
    lemma_read_enc_spec(s, 0, rv.workload);
    let p1 = e1.len() as int;
    lemma_sub_split(s, p1, e2, e3 + e4);
    lemma_read_enc_status(s, p1, rv.status);
    let p2 = p1 + e2.len();
    lemma_sub_split(s, p2, e3, e4);
    lemma_read_enc_opt_u64(s, p2, rv.last_used);
    let p3 = p2 + e3.len();
    lemma_read_enc_opt_u64(s, p3, rv.size_mb);
}

} // verus!

verus! {

use crate::workload::{
    ContainerImage, ContainerStatus, GameWorkloadSpec, MountPoint, NetworkMode, WorkloadRecord,
};

/// Appends the encoding of a boolean token.
pub fn write_bool(buf: &mut Vec<char>, b: bool)
    ensures
        final(buf)@ == old(buf)@ + enc_bool(b),
{
    if b {
        write_u64(buf, 1);
    } else {
        write_u64(buf, 0);
    }
}

/// Appends the encoding of an optional number.
pub fn write_opt_u64(buf: &mut Vec<char>, o: &Option<u64>)
    ensures
        final(buf)@ == old(buf)@ + enc_opt_u64(*o),
{
    match o {
        Option::Some(n) => {
            write_u64(buf, 1);
            write_u64(buf, *n);
            proof {
                assert(buf@ =~= old(buf)@ + enc_opt_u64(*o));
            }
        },
        Option::None => {
            write_u64(buf, 0);
        },
    }
}

/// Appends the encoding of an optional string.
pub fn write_opt_str(buf: &mut Vec<char>, o: &Option<String>)
    ensures
        final(buf)@ == old(buf)@ + enc_opt_str(
            match o {
                Option::Some(x) => Option::Some(x@),
                Option::None => Option::None,
            },
        ),
        opt_str_fits(
            match o {
                Option::Some(x) => Option::Some(x@),
                Option::None => Option::None,
            },
        ),
{
    match o {
        Option::Some(x) => {
            write_u64(buf, 1);
            write_str(buf, x.as_str());
            proof {
                assert(buf@ =~= old(buf)@ + enc_opt_str(Option::Some(x@)));
            }
        },
        Option::None => {
            write_u64(buf, 0);
        },
    }
}

/// Appends the encoding of an image reference.
pub fn write_image(buf: &mut Vec<char>, iv: &ContainerImage)
    ensures
        final(buf)@ == old(buf)@ + enc_image(iv@),
        image_fits(iv@),
{
    write_str(buf, iv.name.as_str());
    write_str(buf, iv.tag.as_str());
    write_opt_str(buf, &iv.digest);
    write_str(buf, iv.platform.as_str());
    proof {
        assert(buf@ =~= old(buf)@ + enc_image(iv@));
    }
}

/// Appends the encoding of one mount point.
pub fn write_mount(buf: &mut Vec<char>, m: &MountPoint)
    ensures
        final(buf)@ == old(buf)@ + enc_mount(m@),
        mount_fits(m@),
{
    write_str(buf, m.host_path.as_str());
    write_str(buf, m.container_path.as_str());
    write_bool(buf, m.read_only);
    let tag: u64 = match m.bind_type {
        crate::workload::BindType::Bind => 0,
        crate::workload::BindType::Volume => 1,
        crate::workload::BindType::TmpFs => 2,
        crate::workload::BindType::DeviceNode => 3,
    };
    write_u64(buf, tag);
    proof {
        assert(buf@ =~= old(buf)@ + enc_mount(m@));
    }
}

/// Appends the encoding of the network mode.
pub fn write_net(buf: &mut Vec<char>, n: &NetworkMode)
    ensures
        final(buf)@ == old(buf)@ + enc_net(n@),
        net_fits(n@),
{
    match n {
        NetworkMode::Bridge => {
            write_u64(buf, 0);
        },
        NetworkMode::Host => {
            write_u64(buf, 1);
        },
        NetworkMode::Disabled => {
            write_u64(buf, 2);
        },
        NetworkMode::Custom(x) => {
            write_u64(buf, 3);
            write_str(buf, x.as_str());
            proof {
                assert(buf@ =~= old(buf)@ + enc_net(n@));
            }
        },
    }
}

/// Appends the encoding of a workload status.
pub fn write_status(buf: &mut Vec<char>, st: &ContainerStatus)
    ensures
        final(buf)@ == old(buf)@ + enc_status(st@),
        status_fits(st@),
{
    match st {
        ContainerStatus::Creating => {
            write_u64(buf, 0);
        },
        ContainerStatus::Stopped => {
            write_u64(buf, 1);
        },
        ContainerStatus::Running => {
            write_u64(buf, 2);
        },
        ContainerStatus::Paused => {
            write_u64(buf, 3);
        },
        ContainerStatus::Updating => {
            write_u64(buf, 4);
        },
        ContainerStatus::Error(msg) => {
            write_u64(buf, 5);
            write_str(buf, msg.as_str());
            proof {
                assert(buf@ =~= old(buf)@ + enc_status(st@));
            }
        },
    }
}

/// Appends the encoding of the resource limits.
pub fn write_limits(buf: &mut Vec<char>, l: &crate::workload::ResourceLimits)
    ensures
        final(buf)@ == old(buf)@ + enc_limits(*l),
{
    write_opt_u64(buf, &l.memory_mb);
    let cpu64: Option<u64> = match l.cpu_cores {
        Option::Some(c) => Option::Some(c as u64),
        Option::None => Option::None,
    };
    write_opt_u64(buf, &cpu64);
    write_opt_u64(buf, &l.disk_mb);
    write_bool(buf, l.gpu_access);
    proof {
        assert(buf@ =~= old(buf)@ + enc_limits(*l));
    }
}

/// Appends the encoding of a counted string list.
pub fn write_str_list(buf: &mut Vec<char>, xs: &Vec<String>)
    ensures
        final(buf)@ == old(buf)@ + enc_list(
            xs@.map_values(|s: String| s@),
            enc_str_fn(),
        ),
        xs@.len() <= u64::MAX,
        forall|k: int| 0 <= k < xs@.len() ==> str_fits((#[trigger] xs@[k])@),
{
    let ghost xsv = xs@.map_values(|s: String| s@);
    write_u64(buf, xs.len() as u64);
    let ghost mid = buf@;
    let mut i: usize = 0;
    while i < xs.len()
        invariant
            xsv == xs@.map_values(|s: String| s@),
            xsv.len() == xs@.len(),
            0 <= i <= xs@.len(),
            buf@ == mid + enc_items(xsv.take(i as int), 0, enc_str_fn()),
            forall|k: int| 0 <= k < i ==> str_fits(#[trigger] xsv[k]),
        decreases xs@.len() - i,
    {
        write_str(buf, xs[i].as_str());
        proof {
            assert(xsv[i as int] == xs@[i as int]@);
            lemma_enc_items_snoc(xsv, 0, i as int, enc_str_fn());
            assert(enc_str_fn()(xsv[i as int]) == enc_str(xsv[i as int]));
            assert(buf@ =~= mid + enc_items(xsv.take(i as int + 1), 0, enc_str_fn()));
        }
        i += 1;
    }
    proof {
        assert(xsv.take(xsv.len() as int) =~= xsv);
        assert(buf@ =~= old(buf)@ + enc_list(xsv, enc_str_fn()));
        assert forall|k: int| 0 <= k < xs@.len() implies str_fits((#[trigger] xs@[k])@) by {
            assert(xsv[k] == xs@[k]@);
        }
    }
}

/// Appends the encoding of a counted environment list.
pub fn write_pair_list(buf: &mut Vec<char>, xs: &Vec<(String, String)>)
    ensures
        final(buf)@ == old(buf)@ + enc_list(
            xs@.map_values(|p: (String, String)| (p.0@, p.1@)),
            enc_pair_fn(),
        ),
        xs@.len() <= u64::MAX,
        forall|k: int| 0 <= k < xs@.len() ==> pair_fits(((#[trigger] xs@[k]).0@, xs@[k].1@)),
{
    let ghost xsv = xs@.map_values(|p: (String, String)| (p.0@, p.1@));
    write_u64(buf, xs.len() as u64);
    let ghost mid = buf@;
    let mut i: usize = 0;
    while i < xs.len()
        invariant
            xsv == xs@.map_values(|p: (String, String)| (p.0@, p.1@)),
            xsv.len() == xs@.len(),
            0 <= i <= xs@.len(),
            buf@ == mid + enc_items(xsv.take(i as int), 0, enc_pair_fn()),
            forall|k: int| 0 <= k < i ==> pair_fits(#[trigger] xsv[k]),
        decreases xs@.len() - i,
    {
        write_str(buf, xs[i].0.as_str());
        write_str(buf, xs[i].1.as_str());
        proof {
            assert(xsv[i as int] == (xs@[i as int].0@, xs@[i as int].1@));
            lemma_enc_items_snoc(xsv, 0, i as int, enc_pair_fn());
            assert(enc_pair_fn()(xsv[i as int]) == enc_pair(xsv[i as int]));
            assert(buf@ =~= mid + enc_items(xsv.take(i as int + 1), 0, enc_pair_fn()));
        }
        i += 1;
    }
    proof {
        assert(xsv.take(xsv.len() as int) =~= xsv);
        assert(buf@ =~= old(buf)@ + enc_list(xsv, enc_pair_fn()));
        assert forall|k: int|
            0 <= k < xs@.len() implies pair_fits(((#[trigger] xs@[k]).0@, xs@[k].1@)) by {
            assert(xsv[k] == (xs@[k].0@, xs@[k].1@));
        }
    }
}

/// Appends the encoding of a counted mount list.
pub fn write_mount_list(buf: &mut Vec<char>, xs: &Vec<MountPoint>)
    ensures
        final(buf)@ == old(buf)@ + enc_list(
            xs@.map_values(|m: MountPoint| m@),
            enc_mount_fn(),
        ),
        xs@.len() <= u64::MAX,
        forall|k: int| 0 <= k < xs@.len() ==> mount_fits((#[trigger] xs@[k])@),
{
    let ghost xsv = xs@.map_values(|m: MountPoint| m@);
    write_u64(buf, xs.len() as u64);
    let ghost mid = buf@;
    let mut i: usize = 0;
    while i < xs.len()
        invariant
            xsv == xs@.map_values(|m: MountPoint| m@),
            xsv.len() == xs@.len(),
            0 <= i <= xs@.len(),
            buf@ == mid + enc_items(xsv.take(i as int), 0, enc_mount_fn()),
            forall|k: int| 0 <= k < i ==> mount_fits(#[trigger] xsv[k]),
        decreases xs@.len() - i,
    {
        write_mount(buf, &xs[i]);
        proof {
            assert(xsv[i as int] == xs@[i as int]@);
            lemma_enc_items_snoc(xsv, 0, i as int, enc_mount_fn());
            assert(enc_mount_fn()(xsv[i as int]) == enc_mount(xsv[i as int]));
            assert(buf@ =~= mid + enc_items(xsv.take(i as int + 1), 0, enc_mount_fn()));
        }
        i += 1;
    }
    proof {
        assert(xsv.take(xsv.len() as int) =~= xsv);
        assert(buf@ =~= old(buf)@ + enc_list(xsv, enc_mount_fn()));
        assert forall|k: int| 0 <= k < xs@.len() implies mount_fits((#[trigger] xs@[k])@) by {
            assert(xsv[k] == xs@[k]@);
        }
    }
}

/// Appends the first half of a workload plan's encoding.
#[verifier::rlimit(100)]
#[verifier::spinoff_prover]
fn write_spec_a(buf: &mut Vec<char>, w: &GameWorkloadSpec)
    ensures
        final(buf)@ == old(buf)@ + enc_spec_a(w@),
        str_fits(w@.id),
        str_fits(w@.name),
        str_fits(w@.game_id),
        image_fits(w@.base_image),
        str_fits(w@.runtime_version),
        w@.graphics_layers.len() <= u64::MAX,
        forall|k: int|
            0 <= k < w@.graphics_layers.len() ==> str_fits(#[trigger] w@.graphics_layers[k]),
{
    write_str(buf, w.id.as_str());
    write_str(buf, w.name.as_str());
    write_str(buf, w.game_id.as_str());
    write_image(buf, &w.base_image);
    write_str(buf, w.runtime_version.as_str());
    write_str_list(buf, &w.graphics_layers);
    proof {
        reveal(enc_spec_a);
        assert(buf@ =~= old(buf)@ + enc_spec_a(w@));
        assert forall|k: int|
            0 <= k < w@.graphics_layers.len() implies str_fits(
            #[trigger] w@.graphics_layers[k],
        ) by {
            assert(w@.graphics_layers[k] == w.graphics_layers@[k]@);
        }
    }
}

/// Appends the second half of a workload plan's encoding.
#[verifier::rlimit(100)]
#[verifier::spinoff_prover]
fn write_spec_b(buf: &mut Vec<char>, w: &GameWorkloadSpec)
    ensures
        final(buf)@ == old(buf)@ + enc_spec_b(w@),
        w@.system_dependencies.len() <= u64::MAX,
        forall|k: int|
            0 <= k < w@.system_dependencies.len() ==> str_fits(
                #[trigger] w@.system_dependencies[k],
            ),
        w@.environment_variables.len() <= u64::MAX,
        forall|k: int|
            0 <= k < w@.environment_variables.len() ==> pair_fits(
                #[trigger] w@.environment_variables[k],
            ),
        w@.mount_points.len() <= u64::MAX,
        forall|k: int| 0 <= k < w@.mount_points.len() ==> mount_fits(#[trigger] w@.mount_points[k]),
        net_fits(w@.network_mode),
{
    write_str_list(buf, &w.system_dependencies);
    write_pair_list(buf, &w.environment_variables);
    write_mount_list(buf, &w.mount_points);
    write_net(buf, &w.network_mode);
    write_limits(buf, &w.resource_limits);
    write_u64(buf, w.created_at);
    proof {
        reveal(enc_spec_b);
        assert(buf@ =~= old(buf)@ + enc_spec_b(w@));
        assert forall|k: int|
            0 <= k < w@.system_dependencies.len() implies str_fits(
            #[trigger] w@.system_dependencies[k],
        ) by {
            assert(w@.system_dependencies[k] == w.system_dependencies@[k]@);
        }
        assert forall|k: int|
            0 <= k < w@.environment_variables.len() implies pair_fits(
            #[trigger] w@.environment_variables[k],
        ) by {
            assert(w@.environment_variables[k] == (w.environment_variables@[k].0@,
            w.environment_variables@[k].1@));
        }
        assert forall|k: int|
            0 <= k < w@.mount_points.len() implies mount_fits(#[trigger] w@.mount_points[k]) by {
            assert(w@.mount_points[k] == w.mount_points@[k]@);
        }
    }
}

/// Appends the encoding of a full workload plan.
pub fn write_spec(buf: &mut Vec<char>, w: &GameWorkloadSpec)
    ensures
        final(buf)@ == old(buf)@ + enc_spec(w@),
        spec_fits(w@),
{
    write_spec_a(buf, w);
    write_spec_b(buf, w);
    proof {
        assert(buf@ =~= old(buf)@ + enc_spec(w@));
    }
}

/// Renders the state document for a workload record. The result is exactly
/// `enc_record` of the record's view, and every such record is encodable.
pub fn encode_record(r: &WorkloadRecord) -> (out: String)
    ensures
        out@ == enc_record(r@),
        record_fits(r@),
{
    let mut buf: Vec<char> = Vec::new();
    write_spec(&mut buf, &r.workload);
    write_status(&mut buf, &r.status);
    write_opt_u64(&mut buf, &r.last_used);
    write_opt_u64(&mut buf, &r.size_mb);
    proof {
        assert(buf@ =~= enc_record(r@));
    }
    chars_to_string(&buf)
}

} // verus!

verus! {

/// Reads a boolean token, exactly as `sp_read_bool` does.
pub fn read_bool(v: &Vec<char>, i: usize) -> (r: Option<(bool, usize)>)
    requires
        i <= v@.len(),
    ensures
        r matches Some(p) ==> sp_read_bool(v@, i as int) == Some((p.0, p.1 as int)) && p.1
            <= v@.len(),
        r is None ==> sp_read_bool(v@, i as int) is None,
{
    match read_u64(v, i) {
        Option::Some((n, j)) => {
            if n == 1 {
                Option::Some((true, j))
            } else if n == 0 {
                Option::Some((false, j))
            } else {
                Option::None
            }
        },
        Option::None => Option::None,
    }
}

/// Reads an optional number, exactly as `sp_read_opt_u64` does.
pub fn read_opt_u64(v: &Vec<char>, i: usize) -> (r: Option<(Option<u64>, usize)>)
    requires
        i <= v@.len(),
    ensures
        r matches Some(p) ==> sp_read_opt_u64(v@, i as int) == Some((p.0, p.1 as int)) && p.1
            <= v@.len(),
        r is None ==> sp_read_opt_u64(v@, i as int) is None,
{
    match read_u64(v, i) {
        Option::Some((tag, j)) => {
            if tag == 0 {
                Option::Some((Option::None, j))
            } else if tag == 1 {
                match read_u64(v, j) {
                    Option::Some((n, k)) => Option::Some((Option::Some(n), k)),
                    Option::None => Option::None,
                }
            } else {
                Option::None
            }
        },
        Option::None => Option::None,
    }
}

/// Reads an optional string, exactly as `sp_read_opt_str` does.
pub fn read_opt_str(v: &Vec<char>, i: usize) -> (r: Option<(Option<String>, usize)>)
    requires
        i <= v@.len(),
    ensures
        r matches Some(p) ==> (sp_read_opt_str(v@, i as int) matches Some(q) && (match p.0 {
            Option::Some(x) => q.0 == Option::Some(x@),
            Option::None => q.0 is None,
        }) && q.1 == p.1 as int && p.1 <= v@.len()),
        r is None ==> sp_read_opt_str(v@, i as int) is None,
{
    match read_u64(v, i) {
        Option::Some((tag, j)) => {
            if tag == 0 {
                Option::Some((Option::None, j))
            } else if tag == 1 {
                match read_str(v, j) {
                    Option::Some((x, k)) => Option::Some((Option::Some(x), k)),
                    Option::None => Option::None,
                }
            } else {
                Option::None
            }
        },
        Option::None => Option::None,
    }
}

/// Reads an image reference, exactly as `sp_read_image` does.
pub fn read_image(v: &Vec<char>, i: usize) -> (r: Option<(ContainerImage, usize)>)
    requires
        i <= v@.len(),
    ensures
        r matches Some(p) ==> (sp_read_image(v@, i as int) matches Some(q) && q.0 == p.0@ && q.1
            == p.1 as int && p.1 <= v@.len()),
        r is None ==> sp_read_image(v@, i as int) is None,
{
    match read_str(v, i) {
        Option::Some((name, p1)) => match read_str(v, p1) {
            Option::Some((tag, p2)) => match read_opt_str(v, p2) {
                Option::Some((digest, p3)) => match read_str(v, p3) {
                    Option::Some((platform, p4)) => Option::Some(
                        (ContainerImage { name, tag, digest, platform }, p4),
                    ),
                    Option::None => Option::None,
                },
                Option::None => Option::None,
            },
            Option::None => Option::None,
        },
        Option::None => Option::None,
    }
}

/// Reads one mount point, exactly as `sp_read_mount` does.
pub fn read_mount(v: &Vec<char>, i: usize) -> (r: Option<(MountPoint, usize)>)
    requires
        i <= v@.len(),
    ensures
        r matches Some(p) ==> (sp_read_mount(v@, i as int) matches Some(q) && q.0 == p.0@ && q.1
            == p.1 as int && p.1 <= v@.len()),
        r is None ==> sp_read_mount(v@, i as int) is None,
{
    match read_str(v, i) {
        Option::Some((host_path, p1)) => match read_str(v, p1) {
            Option::Some((container_path, p2)) => match read_bool(v, p2) {
                Option::Some((read_only, p3)) => match read_u64(v, p3) {
                    Option::Some((tag, p4)) => {
                        let bind_type = if tag == 0 {
                            crate::workload::BindType::Bind
                        } else if tag == 1 {
                            crate::workload::BindType::Volume
                        } else if tag == 2 {
                            crate::workload::BindType::TmpFs
                        } else if tag == 3 {
                            crate::workload::BindType::DeviceNode
                        } else {
                            return Option::None;
                        };
                        Option::Some(
                            (MountPoint { host_path, container_path, read_only, bind_type }, p4),
                        )
                    },
                    Option::None => Option::None,
                },
                Option::None => Option::None,
            },
            Option::None => Option::None,
        },
        Option::None => Option::None,
    }
}

/// Reads the network mode, exactly as `sp_read_net` does.
pub fn read_net(v: &Vec<char>, i: usize) -> (r: Option<(NetworkMode, usize)>)
    requires
        i <= v@.len(),
    ensures
        r matches Some(p) ==> (sp_read_net(v@, i as int) matches Some(q) && q.0 == p.0@ && q.1
            == p.1 as int && p.1 <= v@.len()),
        r is None ==> sp_read_net(v@, i as int) is None,
{
    match read_u64(v, i) {
        Option::Some((tag, j)) => {
            if tag == 0 {
                Option::Some((NetworkMode::Bridge, j))
            } else if tag == 1 {
                Option::Some((NetworkMode::Host, j))
            } else if tag == 2 {
                Option::Some((NetworkMode::Disabled, j))
            } else if tag == 3 {
                match read_str(v, j) {
                    Option::Some((x, k)) => Option::Some((NetworkMode::Custom(x), k)),
                    Option::None => Option::None,
                }
            } else {
                Option::None
            }
        },
        Option::None => Option::None,
    }
}

/// Reads a workload status, exactly as `sp_read_status` does.
pub fn read_status(v: &Vec<char>, i: usize) -> (r: Option<(ContainerStatus, usize)>)
    requires
        i <= v@.len(),
    ensures
        r matches Some(p) ==> (sp_read_status(v@, i as int) matches Some(q) && q.0 == p.0@ && q.1
            == p.1 as int && p.1 <= v@.len()),
        r is None ==> sp_read_status(v@, i as int) is None,
{
    match read_u64(v, i) {
        Option::Some((tag, j)) => {
            if tag == 0 {
                Option::Some((ContainerStatus::Creating, j))
            } else if tag == 1 {
                Option::Some((ContainerStatus::Stopped, j))
            } else if tag == 2 {
                Option::Some((ContainerStatus::Running, j))
            } else if tag == 3 {
                Option::Some((ContainerStatus::Paused, j))
            } else if tag == 4 {
                Option::Some((ContainerStatus::Updating, j))
            } else if tag == 5 {
                match read_str(v, j) {
                    Option::Some((msg, k)) => Option::Some((ContainerStatus::Error(msg), k)),
                    Option::None => Option::None,
                }
            } else {
                Option::None
            }
        },
        Option::None => Option::None,
    }
}

/// Reads the resource limits, exactly as `sp_read_limits` does.
pub fn read_limits(v: &Vec<char>, i: usize) -> (r: Option<(
    crate::workload::ResourceLimits,
    usize,
)>)
    requires
        i <= v@.len(),
    ensures
        r matches Some(p) ==> sp_read_limits(v@, i as int) == Some((p.0, p.1 as int)) && p.1
            <= v@.len(),
        r is None ==> sp_read_limits(v@, i as int) is None,
{
    match read_opt_u64(v, i) {
        Option::Some((memory_mb, p1)) => match read_opt_u64(v, p1) {
            Option::Some((cpu64, p2)) => {
                let cpu_cores: Option<u32> = match cpu64 {
                    Option::Some(c) => {
                        if c <= u32::MAX as u64 {
                            Option::Some(c as u32)
                        } else {
                            return Option::None;
                        }
                    },
                    Option::None => Option::None,
                };
                match read_opt_u64(v, p2) {
                    Option::Some((disk_mb, p3)) => match read_bool(v, p3) {
                        Option::Some((gpu_access, p4)) => Option::Some(
                            (
                                crate::workload::ResourceLimits {
                                    memory_mb,
                                    cpu_cores,
                                    disk_mb,
                                    gpu_access,
                                },
                                p4,
                            ),
                        ),
                        Option::None => Option::None,
                    },
                    Option::None => Option::None,
                }
            },
            Option::None => Option::None,
        },
        Option::None => Option::None,
    }
}

} // verus!

verus! {

/// Reads `count` string items, exactly as `sp_read_items` does.
fn read_str_items(v: &Vec<char>, i: usize, count: u64) -> (r: Option<(Vec<String>, usize)>)
    requires
        i <= v@.len(),
    ensures
        r matches Some(p) ==> (sp_read_items(v@, i as int, count as int, read_str_fn())
            matches Some(q) && q.0 == p.0@.map_values(|s: String| s@) && q.1 == p.1 as int && p.1
            <= v@.len()),
        r is None ==> sp_read_items(v@, i as int, count as int, read_str_fn()) is None,
    decreases count,
{
    proof {
        assert(read_str_fn()(v@, i as int) == sp_read_str(v@, i as int));
    }
    if count == 0 {
        let out: Vec<String> = Vec::new();
        proof {
            assert(out@.map_values(|s: String| s@) =~= Seq::<Seq<char>>::empty());
        }
        return Option::Some((out, i));
    }
    match read_str(v, i) {
        Option::Some((x, j)) => {
            match read_str_items(v, j, count - 1) {
                Option::Some((mut xs, k)) => {
                    let ghost xg = x;
                    let ghost tail = xs@;
                    xs.insert(0, x);
                    proof {
                        assert(xs@ =~= seq![xg] + tail);
                        assert(xs@.map_values(|s: String| s@) =~= seq![xg@] + tail.map_values(
                            |s: String| s@,
                        ));
                    }
                    Option::Some((xs, k))
                },
                Option::None => Option::None,
            }
        },
        Option::None => Option::None,
    }
}

/// Reads `count` environment pairs, exactly as `sp_read_items` does.
fn read_pair_items(v: &Vec<char>, i: usize, count: u64) -> (r: Option<(
    Vec<(String, String)>,
    usize,
)>)
    requires
        i <= v@.len(),
    ensures
        r matches Some(p) ==> (sp_read_items(v@, i as int, count as int, read_pair_fn())
            matches Some(q) && q.0 == p.0@.map_values(|x: (String, String)| (x.0@, x.1@)) && q.1
            == p.1 as int && p.1 <= v@.len()),
        r is None ==> sp_read_items(v@, i as int, count as int, read_pair_fn()) is None,
    decreases count,
{
    proof {
        assert(read_pair_fn()(v@, i as int) == sp_read_pair(v@, i as int));
    }
    if count == 0 {
        let out: Vec<(String, String)> = Vec::new();
        proof {
            assert(out@.map_values(|x: (String, String)| (x.0@, x.1@)) =~= Seq::<
                (Seq<char>, Seq<char>),
            >::empty());
        }
        return Option::Some((out, i));
    }
    match read_str(v, i) {
        Option::Some((key, j0)) => match read_str(v, j0) {
            Option::Some((value, j)) => {
                match read_pair_items(v, j, count - 1) {
                    Option::Some((mut xs, k)) => {
                        let ghost kg = key;
                        let ghost vg = value;
                        let ghost tail = xs@;
                        xs.insert(0, (key, value));
                        proof {
                            assert(xs@ =~= seq![(kg, vg)] + tail);
                            assert(xs@.map_values(|x: (String, String)| (x.0@, x.1@)) =~= seq![
                                (kg@, vg@),
                            ] + tail.map_values(|x: (String, String)| (x.0@, x.1@)));
                        }
                        Option::Some((xs, k))
                    },
                    Option::None => Option::None,
                }
            },
            Option::None => Option::None,
        },
        Option::None => Option::None,
    }
}

/// Reads `count` mount points, exactly as `sp_read_items` does.
fn read_mount_items(v: &Vec<char>, i: usize, count: u64) -> (r: Option<(Vec<MountPoint>, usize)>)
    requires
        i <= v@.len(),
    ensures
        r matches Some(p) ==> (sp_read_items(v@, i as int, count as int, read_mount_fn())
            matches Some(q) && q.0 == p.0@.map_values(|m: MountPoint| m@) && q.1 == p.1 as int
            && p.1 <= v@.len()),
        r is None ==> sp_read_items(v@, i as int, count as int, read_mount_fn()) is None,
    decreases count,
{
    proof {
        assert(read_mount_fn()(v@, i as int) == sp_read_mount(v@, i as int));
    }
    if count == 0 {
        let out: Vec<MountPoint> = Vec::new();
        proof {
            assert(out@.map_values(|m: MountPoint| m@) =~= Seq::<MountPointV>::empty());
        }
        return Option::Some((out, i));
    }
    match read_mount(v, i) {
        Option::Some((m, j)) => {
            match read_mount_items(v, j, count - 1) {
                Option::Some((mut xs, k)) => {
                    let ghost mg = m;
                    let ghost tail = xs@;
                    xs.insert(0, m);
                    proof {
                        assert(xs@ =~= seq![mg] + tail);
                        assert(xs@.map_values(|m2: MountPoint| m2@) =~= seq![mg@]
                            + tail.map_values(|m2: MountPoint| m2@));
                    }
                    Option::Some((xs, k))
                },
                Option::None => Option::None,
            }
        },
        Option::None => Option::None,
    }
}

/// Reads a counted string list, exactly as `sp_read_list` does.
fn read_str_list(v: &Vec<char>, i: usize) -> (r: Option<(Vec<String>, usize)>)
    requires
        i <= v@.len(),
    ensures
        r matches Some(p) ==> (sp_read_list(v@, i as int, read_str_fn()) matches Some(q) && q.0
            == p.0@.map_values(|s: String| s@) && q.1 == p.1 as int && p.1 <= v@.len()),
        r is None ==> sp_read_list(v@, i as int, read_str_fn()) is None,
{
    match read_u64(v, i) {
        Option::Some((count, j)) => read_str_items(v, j, count),
        Option::None => Option::None,
    }
}

/// Reads a counted pair list, exactly as `sp_read_list` does.
fn read_pair_list(v: &Vec<char>, i: usize) -> (r: Option<(Vec<(String, String)>, usize)>)
    requires
        i <= v@.len(),
    ensures
        r matches Some(p) ==> (sp_read_list(v@, i as int, read_pair_fn()) matches Some(q) && q.0
            == p.0@.map_values(|x: (String, String)| (x.0@, x.1@)) && q.1 == p.1 as int && p.1
            <= v@.len()),
        r is None ==> sp_read_list(v@, i as int, read_pair_fn()) is None,
{
    match read_u64(v, i) {
        Option::Some((count, j)) => read_pair_items(v, j, count),
        Option::None => Option::None,
    }
}

/// Reads a counted mount list, exactly as `sp_read_list` does.
fn read_mount_list(v: &Vec<char>, i: usize) -> (r: Option<(Vec<MountPoint>, usize)>)
    requires
        i <= v@.len(),
    ensures
        r matches Some(p) ==> (sp_read_list(v@, i as int, read_mount_fn()) matches Some(q) && q.0
            == p.0@.map_values(|m: MountPoint| m@) && q.1 == p.1 as int && p.1 <= v@.len()),
        r is None ==> sp_read_list(v@, i as int, read_mount_fn()) is None,
{
    match read_u64(v, i) {
        Option::Some((count, j)) => read_mount_items(v, j, count),
        Option::None => Option::None,
    }
}

} // verus!

verus! {

/// Reads a full workload plan, exactly as `sp_read_spec` does.
#[verifier::rlimit(100)]
#[verifier::spinoff_prover]
pub fn read_spec(v: &Vec<char>, i: usize) -> (r: Option<(GameWorkloadSpec, usize)>)
    requires
        i <= v@.len(),
    ensures
        r matches Some(p) ==> (sp_read_spec(v@, i as int) matches Some(q) && q.0 == p.0@ && q.1
            == p.1 as int && p.1 <= v@.len()),
        r is None ==> sp_read_spec(v@, i as int) is None,
{
    proof {
        reveal(sp_read_spec);
    }
    match read_str(v, i) {
        Option::Some((id, p1)) => match read_str(v, p1) {
            Option::Some((name, p2)) => match read_str(v, p2) {
                Option::Some((game_id, p3)) => match read_image(v, p3) {
                    Option::Some((base_image, p4)) => match read_str(v, p4) {
                        Option::Some((runtime_version, p5)) => match read_str_list(v, p5) {
                            Option::Some((graphics_layers, p6)) => match read_str_list(v, p6) {
                                Option::Some((system_dependencies, p7)) => match read_pair_list(
                                    v,
                                    p7,
                                ) {
                                    Option::Some((environment_variables, p8)) => match read_mount_list(
                                        v,
                                        p8,
                                    ) {
                                        Option::Some((mount_points, p9)) => match read_net(
                                            v,
                                            p9,
                                        ) {
                                            Option::Some((network_mode, p10)) => match read_limits(
                                                v,
                                                p10,
                                            ) {
                                                Option::Some((resource_limits, p11)) => match read_u64(
                                                    v,
                                                    p11,
                                                ) {
                                                    Option::Some((created_at, p12)) => {
                                                        let w = GameWorkloadSpec {
                                                            id,
                                                            name,
                                                            game_id,
                                                            base_image,
                                                            runtime_version,
                                                            graphics_layers,
                                                            system_dependencies,
                                                            environment_variables,
                                                            mount_points,
                                                            network_mode,
                                                            resource_limits,
                                                            created_at,
                                                        };
                                                        Option::Some((w, p12))
                                                    },
                                                    Option::None => Option::None,
                                                },
                                                Option::None => Option::None,
                                            },
                                            Option::None => Option::None,
                                        },
                                        Option::None => Option::None,
                                    },
                                    Option::None => Option::None,
                                },
                                Option::None => Option::None,
                            },
                            Option::None => Option::None,
                        },
                        Option::None => Option::None,
                    },
                    Option::None => Option::None,
                },
                Option::None => Option::None,
            },
            Option::None => Option::None,
        },
        Option::None => Option::None,
    }
}

/// Reads a full workload record, exactly as `sp_read_record` does.
pub fn read_record(v: &Vec<char>, i: usize) -> (r: Option<(WorkloadRecord, usize)>)
    requires
        i <= v@.len(),
    ensures
        r matches Some(p) ==> (sp_read_record(v@, i as int) matches Some(q) && q.0 == p.0@ && q.1
            == p.1 as int && p.1 <= v@.len()),
        r is None ==> sp_read_record(v@, i as int) is None,
{
    match read_spec(v, i) {
        Option::Some((workload, p1)) => match read_status(v, p1) {
            Option::Some((status, p2)) => match read_opt_u64(v, p2) {
                Option::Some((last_used, p3)) => match read_opt_u64(v, p3) {
                    Option::Some((size_mb, p4)) => Option::Some(
                        (WorkloadRecord { workload, status, last_used, size_mb }, p4),
                    ),
                    Option::None => Option::None,
                },
                Option::None => Option::None,
            },
            Option::None => Option::None,
        },
        Option::None => Option::None,
    }
}

/// Parses one state document, exactly as `sp_parse_record` does: the
/// document must be exactly one record's encoding.
pub fn parse_record(doc: &str) -> (r: Option<WorkloadRecord>)
    ensures
        r matches Some(rec) ==> (sp_parse_record(doc@) matches Some(q) && q == rec@),
        r is None ==> sp_parse_record(doc@) is None,
{
    let v = chars_of_str(doc);
    match read_record(&v, 0) {
        Option::Some((rec, end)) => {
            if end == v.len() {
                Option::Some(rec)
            } else {
                Option::None
            }
        },
        Option::None => Option::None,
    }
}

} // verus!
