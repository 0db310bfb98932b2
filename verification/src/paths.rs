//! Pod keys and their paths: no two keys of a pipeline are written as the same path.

use vstd::prelude::*;
use crate::pod::{key_path, key_suffix, DedupField, InboundField, PackField, PodKey, ProtocolField, QuicField, VerifyField};
use crate::text::{decimal, is_digit, lemma_decimal_roundtrip};

verus! {

proof fn lemma_cancel_prefix(p: Seq<char>, x: Seq<char>, y: Seq<char>)
    requires
        p + x == p + y,
    ensures
        x == y,
{
    assert(x =~= (p + x).skip(p.len() as int));
    assert(y =~= (p + y).skip(p.len() as int));
}

/// A numeral that is followed by something that does not begin with a digit ends
/// where that begins, so the number and what follows can be read back.
proof fn lemma_numbered(i: nat, j: nat, x: Seq<char>, y: Seq<char>)
    requires
        decimal(i) + x == decimal(j) + y,
        x.len() > 0,
        y.len() > 0,
        !is_digit(x[0]),
        !is_digit(y[0]),
    ensures
        i == j,
        x == y,
{
    let a = decimal(i);
    let b = decimal(j);
    lemma_decimal_roundtrip(i);
    lemma_decimal_roundtrip(j);
    if a.len() < b.len() {
        assert((a + x)[a.len() as int] == x[0]);
        assert((b + y)[a.len() as int] == b[a.len() as int]);
        assert(is_digit(b[a.len() as int]));
    } else if b.len() < a.len() {
        assert((b + y)[b.len() as int] == y[0]);
        assert((a + x)[b.len() as int] == a[b.len() as int]);
        assert(is_digit(a[b.len() as int]));
    } else {
        assert(a =~= (a + x).take(a.len() as int));
        assert(b =~= (b + y).take(b.len() as int));
        lemma_cancel_prefix(a, x, y);
    }
}

proof fn lemma_pack_labels(f: PackField, g: PackField)
    requires
        f.label() == g.label(),
    ensures
        f == g,
{
    reveal_strlit("cnc");
    reveal_strlit("out-mcache");
    reveal_strlit("out-dcache");
    reveal_strlit("scratch");
    reveal_strlit("cu-est-tbl");
    reveal_strlit("return-fseq");
    reveal_strlit("bank-cnt");
    reveal_strlit("txnq-sz");
    reveal_strlit("cu-est-tbl-sz");
    reveal_strlit("cu-limit");
    assert("cnc"@.len() == 3);
    assert("out-mcache"@.len() == 10 && "out-mcache"@[4] == 'm');
    assert("out-dcache"@.len() == 10 && "out-dcache"@[4] == 'd');
    assert("scratch"@.len() == 7 && "scratch"@[0] == 's');
    assert("cu-est-tbl"@.len() == 10 && "cu-est-tbl"@[4] == 's');
    assert("return-fseq"@.len() == 11);
    assert("bank-cnt"@.len() == 8 && "bank-cnt"@[0] == 'b');
    assert("txnq-sz"@.len() == 7 && "txnq-sz"@[0] == 't');
    assert("cu-est-tbl-sz"@.len() == 13);
    assert("cu-limit"@.len() == 8 && "cu-limit"@[0] == 'c');
}

proof fn lemma_dedup_labels(f: DedupField, g: DedupField)
    requires
        f.label() == g.label(),
    ensures
        f == g,
{
    reveal_strlit("cnc");
    reveal_strlit("tcache");
    reveal_strlit("mcache");
    reveal_strlit("fseq");
    assert("cnc"@.len() == 3);
    assert("tcache"@.len() == 6 && "tcache"@[0] == 't');
    assert("mcache"@.len() == 6 && "mcache"@[0] == 'm');
    assert("fseq"@.len() == 4);
}

proof fn lemma_inbound_labels(f: InboundField, g: InboundField)
    requires
        f.label() == g.label(),
    ensures
        f == g,
{
    reveal_strlit("mcache");
    reveal_strlit("dcache");
    reveal_strlit("fseq");
    assert("mcache"@.len() == 6 && "mcache"@[0] == 'm');
    assert("dcache"@.len() == 6 && "dcache"@[0] == 'd');
    assert("fseq"@.len() == 4);
}

proof fn lemma_verify_labels(f: VerifyField, g: VerifyField)
    requires
        f.label() == g.label(),
    ensures
        f == g,
{
    reveal_strlit("cnc");
    reveal_strlit("mcache");
    reveal_strlit("dcache");
    reveal_strlit("fseq");
    assert("cnc"@.len() == 3);
    assert("mcache"@.len() == 6 && "mcache"@[0] == 'm');
    assert("dcache"@.len() == 6 && "dcache"@[0] == 'd');
    assert("fseq"@.len() == 4);
}

proof fn lemma_quic_labels(f: QuicField, g: QuicField)
    requires
        f.label() == g.label(),
    ensures
        f == g,
{
    reveal_strlit("cnc");
    reveal_strlit("mcache");
    reveal_strlit("dcache");
    reveal_strlit("fseq");
    reveal_strlit("quic");
    reveal_strlit("xsk");
    reveal_strlit("xsk_aio");
    assert("cnc"@.len() == 3 && "cnc"@[0] == 'c');
    assert("mcache"@.len() == 6 && "mcache"@[0] == 'm');
    assert("dcache"@.len() == 6 && "dcache"@[0] == 'd');
    assert("fseq"@.len() == 4 && "fseq"@[0] == 'f');
    assert("quic"@.len() == 4 && "quic"@[0] == 'q');
    assert("xsk"@.len() == 3 && "xsk"@[0] == 'x');
    assert("xsk_aio"@.len() == 7);
}

proof fn lemma_protocol_labels(f: ProtocolField, g: ProtocolField)
    requires
        f.label() == g.label(),
    ensures
        f == g,
{
    reveal_strlit("cert_file");
    reveal_strlit("key_file");
    reveal_strlit("ip_addr");
    reveal_strlit("listen_port");
    reveal_strlit("src_mac_addr");
    reveal_strlit("idle_timeout_ms");
    assert("cert_file"@.len() == 9);
    assert("key_file"@.len() == 8);
    assert("ip_addr"@.len() == 7);
    assert("listen_port"@.len() == 11);
    assert("src_mac_addr"@.len() == 12);
    assert("idle_timeout_ms"@.len() == 15);
}

/// The path of a key below the pipeline's name begins with the name of its group,
/// and the names of the groups differ in their first, fifth or seventh character.
proof fn lemma_group_mark(key: PodKey)
    ensures
        key is MainCnc ==> key_suffix(key)[0] == 'm',
        key is Pack ==> key_suffix(key)[0] == 'p',
        key is Dedup ==> key_suffix(key)[0] == 'd',
        key is VerifyIn ==> key_suffix(key)[0] == 'v' && key_suffix(key)[6] == 'i',
        key is Verify ==> key_suffix(key)[0] == 'v' && key_suffix(key)[6] == '.',
        key is Quic ==> key_suffix(key)[0] == 'q' && key_suffix(key)[4] == '.',
        key is QuicCfg ==> key_suffix(key)[0] == 'q' && key_suffix(key)[4] == '_',
{
    reveal_strlit("main.cnc");
    reveal_strlit("pack.");
    reveal_strlit("dedup.");
    reveal_strlit("verifyin.v");
    reveal_strlit("verify.v");
    reveal_strlit("quic.quic");
    reveal_strlit("quic_cfg.");
    assert("main.cnc"@.len() == 8 && "main.cnc"@[0] == 'm');
    assert("pack."@.len() == 5 && "pack."@[0] == 'p');
    assert("dedup."@.len() == 6 && "dedup."@[0] == 'd');
    assert("verifyin.v"@.len() == 10 && "verifyin.v"@[0] == 'v' && "verifyin.v"@[6] == 'i');
    assert("verify.v"@.len() == 8 && "verify.v"@[0] == 'v' && "verify.v"@[6] == '.');
    assert("quic.quic"@.len() == 9 && "quic.quic"@[0] == 'q' && "quic.quic"@[4] == '.');
    assert("quic_cfg."@.len() == 9 && "quic_cfg."@[0] == 'q' && "quic_cfg."@[4] == '_');
}

proof fn lemma_inbound_suffix(i: u32, f: InboundField, j: u32, g: InboundField)
    requires
        key_suffix(PodKey::VerifyIn(i, f)) == key_suffix(PodKey::VerifyIn(j, g)),
    ensures
        i == j,
        f == g,
{
    reveal_strlit("in.");
    assert("in."@.len() == 3 && "in."@[0] == 'i');
    let x = "in."@ + f.label();
    let y = "in."@ + g.label();
    assert(key_suffix(PodKey::VerifyIn(i, f)) =~= "verifyin.v"@ + (decimal(i as nat) + x));
    assert(key_suffix(PodKey::VerifyIn(j, g)) =~= "verifyin.v"@ + (decimal(j as nat) + y));
    lemma_cancel_prefix("verifyin.v"@, decimal(i as nat) + x, decimal(j as nat) + y);
    assert(x[0] == 'i');
    assert(y[0] == 'i');
    lemma_numbered(i as nat, j as nat, x, y);
    lemma_cancel_prefix("in."@, f.label(), g.label());
    lemma_inbound_labels(f, g);
}

proof fn lemma_verify_suffix(i: u32, f: VerifyField, j: u32, g: VerifyField)
    requires
        key_suffix(PodKey::Verify(i, f)) == key_suffix(PodKey::Verify(j, g)),
    ensures
        i == j,
        f == g,
{
    reveal_strlit(".");
    assert("."@.len() == 1 && "."@[0] == '.');
    let x = "."@ + f.label();
    let y = "."@ + g.label();
    assert(key_suffix(PodKey::Verify(i, f)) =~= "verify.v"@ + (decimal(i as nat) + x));
    assert(key_suffix(PodKey::Verify(j, g)) =~= "verify.v"@ + (decimal(j as nat) + y));
    lemma_cancel_prefix("verify.v"@, decimal(i as nat) + x, decimal(j as nat) + y);
    assert(x[0] == '.');
    assert(y[0] == '.');
    lemma_numbered(i as nat, j as nat, x, y);
    lemma_cancel_prefix("."@, f.label(), g.label());
    lemma_verify_labels(f, g);
}

proof fn lemma_quic_suffix(i: u32, f: QuicField, j: u32, g: QuicField)
    requires
        key_suffix(PodKey::Quic(i, f)) == key_suffix(PodKey::Quic(j, g)),
    ensures
        i == j,
        f == g,
{
    reveal_strlit(".");
    assert("."@.len() == 1 && "."@[0] == '.');
    let x = "."@ + f.label();
    let y = "."@ + g.label();
    assert(key_suffix(PodKey::Quic(i, f)) =~= "quic.quic"@ + (decimal(i as nat) + x));
    assert(key_suffix(PodKey::Quic(j, g)) =~= "quic.quic"@ + (decimal(j as nat) + y));
    lemma_cancel_prefix("quic.quic"@, decimal(i as nat) + x, decimal(j as nat) + y);
    assert(x[0] == '.');
    assert(y[0] == '.');
    lemma_numbered(i as nat, j as nat, x, y);
    lemma_cancel_prefix("."@, f.label(), g.label());
    lemma_quic_labels(f, g);
}

/// Two keys with the same path below the name are the same key.
proof fn lemma_suffix_tells_keys_apart(a: PodKey, b: PodKey)
    requires
        key_suffix(a) == key_suffix(b),
    ensures
        a == b,
{
    lemma_group_mark(a);
    lemma_group_mark(b);
    match (a, b) {
        (PodKey::MainCnc, PodKey::MainCnc) => {},
        (PodKey::Pack(f), PodKey::Pack(g)) => {
            lemma_cancel_prefix("pack."@, f.label(), g.label());
            lemma_pack_labels(f, g);
        },
        (PodKey::Dedup(f), PodKey::Dedup(g)) => {
            lemma_cancel_prefix("dedup."@, f.label(), g.label());
            lemma_dedup_labels(f, g);
        },
        (PodKey::QuicCfg(f), PodKey::QuicCfg(g)) => {
            lemma_cancel_prefix("quic_cfg."@, f.label(), g.label());
            lemma_protocol_labels(f, g);
        },
        (PodKey::VerifyIn(i, f), PodKey::VerifyIn(j, g)) => {
            lemma_inbound_suffix(i, f, j, g);
        },
        (PodKey::Verify(i, f), PodKey::Verify(j, g)) => {
            lemma_verify_suffix(i, f, j, g);
        },
        (PodKey::Quic(i, f), PodKey::Quic(j, g)) => {
            lemma_quic_suffix(i, f, j, g);
        },
        _ => {},
    }
}

/// In the pod of one pipeline no two keys are written as the same path.
pub proof fn lemma_paths_tell_keys_apart(name: Seq<char>, a: PodKey, b: PodKey)
    requires
        key_path(name, a) == key_path(name, b),
    ensures
        a == b,
{
    lemma_cancel_prefix(name + "."@, key_suffix(a), key_suffix(b));
    lemma_suffix_tells_keys_apart(a, b);
}

} // verus!
