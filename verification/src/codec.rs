use vstd::prelude::*;
use vstd::utf8::{
    decode_utf8, decode_utf8_encode_utf8, encode_utf8, encode_utf8_decode_utf8,
    encode_utf8_valid_utf8, valid_utf8,
};
use crate::error::Error;
use crate::record::{
    allowed_name_byte, check_name_bytes, valid_wallet_name_bytes, wallet_wf, Wallet, WalletView,
};
use crate::textenc::{ascii_bytes, lemma_ascii_bytes_valid_utf8, string_from_utf8};

verus! {

/// First byte of every wallet file; versions the schema.
pub const SCHEMA_VERSION: u8 = 1;

/// Big-endian two-byte encoding of a length.
pub open spec fn be16(n: nat) -> Seq<u8>
    recommends
        n <= 0xffff,
{
    seq![(n / 256) as u8, (n % 256) as u8]
}

/// The length a big-endian two-byte prefix denotes.
pub open spec fn be16_val(b0: u8, b1: u8) -> nat {
    (b0 as nat) * 256 + (b1 as nat)
}

/// Encoding of the first `k` addresses: each as a length byte (always
/// 48, the compressed point size) followed by its 48 bytes.
pub open spec fn addr_block_prefix(addrs: Seq<Seq<u8>>, k: int) -> Seq<u8>
    decreases k,
{
    if k <= 0 {
        Seq::empty()
    } else {
        addr_block_prefix(addrs, k - 1) + seq![48u8] + addrs[k - 1]
    }
}

/// The wallet file schema: a version byte; the name's UTF-8 bytes under
/// a two-byte length; a count byte and the addresses, each under a
/// length byte; the encrypted entropy under a length byte; the reserved
/// checksum and the verification hash's UTF-8 bytes, each under a
/// two-byte length.
pub open spec fn encode_spec(v: WalletView) -> Seq<u8> {
    let nb = encode_utf8(v.name);
    let hb = encode_utf8(v.decryptor_hash);
    seq![SCHEMA_VERSION] + be16(nb.len()) + nb + seq![(v.addresses.len() as u8)]
        + addr_block_prefix(v.addresses, v.addresses.len() as int) + seq![
        (v.encrypted_entropy.len() as u8),
    ] + v.encrypted_entropy + be16(v.checksum.len()) + v.checksum + be16(hb.len()) + hb
}

/// The record a byte string holds under the wallet file schema, or
/// None where the bytes are not a well-formed record.
pub open spec fn decode_spec(b: Seq<u8>) -> Option<WalletView> {
    if b.len() < 3 || b[0] != SCHEMA_VERSION {
        None
    } else {
        let nl = be16_val(b[1], b[2]) as int;
        if b.len() < 3 + nl + 1 {
            None
        } else {
            let nb = b.subrange(3, 3 + nl);
            let a0 = 3 + nl;
            if !valid_wallet_name_bytes(nb) || b[a0] != 20 || b.len() < a0 + 1 + 980 + 1 {
                None
            } else if !(forall|i: int| 0 <= i < 20 ==> #[trigger] b[a0 + 1 + 49 * i] == 48) {
                None
            } else {
                let addrs = Seq::new(
                    20,
                    |i: int| b.subrange(a0 + 2 + 49 * i, a0 + 2 + 49 * i + 48),
                );
                let c0 = a0 + 1 + 980;
                let cl = b[c0] as int;
                if b.len() < c0 + 1 + cl + 2 {
                    None
                } else {
                    let ct = b.subrange(c0 + 1, c0 + 1 + cl);
                    let k0 = c0 + 1 + cl;
                    let kl = be16_val(b[k0], b[k0 + 1]) as int;
                    if b.len() < k0 + 2 + kl + 2 {
                        None
                    } else {
                        let ck = b.subrange(k0 + 2, k0 + 2 + kl);
                        let h0 = k0 + 2 + kl;
                        let hl = be16_val(b[h0], b[h0 + 1]) as int;
                        if b.len() != h0 + 2 + hl {
                            None
                        } else {
                            let hb = b.subrange(h0 + 2, h0 + 2 + hl);
                            if !valid_utf8(hb) {
                                None
                            } else {
                                Some(
                                    WalletView {
                                        name: decode_utf8(nb),
                                        addresses: addrs,
                                        encrypted_entropy: ct,
                                        checksum: ck,
                                        decryptor_hash: decode_utf8(hb),
                                    },
                                )
                            }
                        }
                    }
                }
            }
        }
    }
}

proof fn lemma_addr_prefix_index(addrs: Seq<Seq<u8>>, k: int)
    requires
        forall|i: int| 0 <= i < addrs.len() ==> (#[trigger] addrs[i]).len() == 48,
        0 <= k <= addrs.len(),
    ensures
        addr_block_prefix(addrs, k).len() == 49 * k,
        forall|i: int| 0 <= i < k ==> #[trigger] addr_block_prefix(addrs, k)[49 * i] == 48,
        forall|i: int, t: int|
            0 <= i < k && 0 <= t < 48 ==> #[trigger] addr_block_prefix(addrs, k)[49 * i + 1 + t]
                == addrs[i][t],
    decreases k,
{
    if k > 0 {
        lemma_addr_prefix_index(addrs, k - 1);
        let p = addr_block_prefix(addrs, k);
        let q = addr_block_prefix(addrs, k - 1);
        assert(p == q + seq![48u8] + addrs[k - 1]);
        assert(p.len() == 49 * k);
        assert forall|i: int| 0 <= i < k implies #[trigger] p[49 * i] == 48 by {
            if i < k - 1 {
                assert(49 * i < 49 * (k - 1));
                assert(p[49 * i] == q[49 * i]);
            } else {
                assert(49 * i == q.len());
            }
        }
        assert forall|i: int, t: int| 0 <= i < k && 0 <= t < 48 implies #[trigger] p[49 * i + 1
            + t] == addrs[i][t] by {
            if i < k - 1 {
                assert(49 * i + 1 + t < 49 * (k - 1));
                assert(p[49 * i + 1 + t] == q[49 * i + 1 + t]);
            } else {
                assert(p[49 * i + 1 + t] == addrs[k - 1][t]);
            }
        }
    }
}

/// The wallet file schema decodes every record it encodes, back to the
/// same record: stored wallets survive the round trip through disk.
pub proof fn lemma_wallet_codec_round_trip(v: WalletView)
    requires
        wallet_wf(v),
    ensures
        decode_spec(encode_spec(v)) == Some(v),
{
    let nb = encode_utf8(v.name);
    let hb = encode_utf8(v.decryptor_hash);
    let nl = nb.len() as int;
    let ab = addr_block_prefix(v.addresses, v.addresses.len() as int);
    let ct = v.encrypted_entropy;
    let cl = ct.len() as int;
    let ck = v.checksum;
    let kl = ck.len() as int;
    let hl = hb.len() as int;
    lemma_addr_prefix_index(v.addresses, v.addresses.len() as int);
    encode_utf8_decode_utf8(v.name);
    encode_utf8_decode_utf8(v.decryptor_hash);
    encode_utf8_valid_utf8(v.decryptor_hash);
    let e = encode_spec(v);
    let p1 = seq![SCHEMA_VERSION] + be16(nb.len());
    let p2 = p1 + nb;
    let p3 = p2 + seq![(v.addresses.len() as u8)];
    let p4 = p3 + ab;
    let p5 = p4 + seq![(v.encrypted_entropy.len() as u8)];
    let p6 = p5 + ct;
    let p7 = p6 + be16(ck.len());
    let p8 = p7 + ck;
    let p9 = p8 + be16(hb.len());
    assert(e == p9 + hb);
    assert(p1.len() == 3);
    assert(ab.len() == 980);
    assert(p9.len() == 3 + nl + 1 + 980 + 1 + cl + 2 + kl + 2);
    assert(e.len() == 3 + nl + 1 + 980 + 1 + cl + 2 + kl + 2 + hl);
    let a0 = 3 + nl;
    let c0 = a0 + 1 + 980;
    let k0 = c0 + 1 + cl;
    let h0 = k0 + 2 + kl;

    assert(e[0] == SCHEMA_VERSION);
    assert(be16_val(e[1], e[2]) == nb.len()) by {
        assert(e[1] == (nb.len() / 256) as u8);
        assert(e[2] == (nb.len() % 256) as u8);
        assert(nb.len() <= 0xffff);
    }
    assert(e.subrange(3, 3 + nl) =~= nb);
    assert(e[a0] == (v.addresses.len() as u8));
    assert(v.addresses.len() == 20);
    assert forall|i: int| 0 <= i < 20 implies #[trigger] e[a0 + 1 + 49 * i] == 48 by {
        assert(a0 + 1 + 49 * i == p3.len() + 49 * i);
        assert(e[p3.len() + 49 * i] == ab[49 * i]);
    }
    assert forall|i: int| 0 <= i < 20 implies e.subrange(a0 + 2 + 49 * i, a0 + 2 + 49 * i + 48)
        =~= v.addresses[i] by {
        assert forall|t: int| 0 <= t < 48 implies e[a0 + 2 + 49 * i + t] == v.addresses[i][t] by {
            assert(a0 + 2 + 49 * i + t == p3.len() + (49 * i + 1 + t));
            assert(e[p3.len() + (49 * i + 1 + t)] == ab[49 * i + 1 + t]);
        }
    }
    assert(Seq::new(20, |i: int| e.subrange(a0 + 2 + 49 * i, a0 + 2 + 49 * i + 48)) =~= v.addresses);
    assert(e[c0] == (v.encrypted_entropy.len() as u8));
    assert((e[c0] as int) == cl);
    assert(e.subrange(c0 + 1, c0 + 1 + cl) =~= ct);
    assert(be16_val(e[k0], e[k0 + 1]) == ck.len()) by {
        assert(e[k0] == (ck.len() / 256) as u8);
        assert(e[k0 + 1] == (ck.len() % 256) as u8);
        assert(ck.len() <= 0xffff);
    }
    assert(e.subrange(k0 + 2, k0 + 2 + kl) =~= ck);
    assert(be16_val(e[h0], e[h0 + 1]) == hb.len()) by {
        assert(e[h0] == (hb.len() / 256) as u8);
        assert(e[h0 + 1] == (hb.len() % 256) as u8);
        assert(hb.len() <= 0xffff);
    }
    assert(e.subrange(h0 + 2, h0 + 2 + hl) =~= hb);
    assert(decode_spec(e) matches Some(dv) && dv =~= v);
}

/// Appends a byte slice to a byte vector.
fn push_bytes(out: &mut Vec<u8>, b: &[u8])
    ensures
        final(out)@ == old(out)@ + b@,
{
    let n = b.len();
    let mut i: usize = 0;
    while i < n
        invariant
            n == b@.len(),
            0 <= i <= n,
            out@ == old(out)@ + b@.subrange(0, i as int),
        decreases n - i,
    {
        out.push(b[i]);
        proof {
            assert(b@.subrange(0, i + 1 as int) =~= b@.subrange(0, i as int).push(b@[i as int]));
            assert(old(out)@ + b@.subrange(0, i as int).push(b@[i as int]) =~= (old(out)@
                + b@.subrange(0, i as int)).push(b@[i as int]));
        }
        i = i + 1;
    }
    proof {
        assert(b@.subrange(0, n as int) =~= b@);
    }
}

/// Appends the big-endian two-byte form of a length below 0x10000.
fn push_be16(out: &mut Vec<u8>, n: usize)
    requires
        n <= 0xffff,
    ensures
        final(out)@ == old(out)@ + be16(n as nat),
{
    let hi = (n / 256) as u8;
    let lo = (n % 256) as u8;
    out.push(hi);
    out.push(lo);
    proof {
        assert(old(out)@.push(hi).push(lo) =~= old(out)@ + be16(n as nat));
    }
}

/// Serializes a wallet record under the wallet file schema.
pub fn wallet_to_bytes(wallet: &Wallet) -> (r: Vec<u8>)
    requires
        wallet_wf(wallet@),
    ensures
        r@ == encode_spec(wallet@),
{
    let ghost v = wallet@;
    let mut out: Vec<u8> = Vec::new();
    out.push(SCHEMA_VERSION);
    let nb = wallet.name.as_str().as_bytes();
    proof {
        assert(nb@ == encode_utf8(v.name));
    }
    push_be16(&mut out, nb.len());
    push_bytes(&mut out, nb);
    out.push(20u8);
    proof {
        assert(v.addresses.len() as u8 == 20u8);
    }
    let n_addr = wallet.addresses.len();
    let mut i: usize = 0;
    while i < n_addr
        invariant
            n_addr == wallet.addresses@.len(),
            wallet_wf(wallet@),
            v == wallet@,
            0 <= i <= n_addr,
            out@ == seq![SCHEMA_VERSION] + be16(encode_utf8(v.name).len()) + encode_utf8(v.name)
                + seq![(v.addresses.len() as u8)] + addr_block_prefix(v.addresses, i as int),
        decreases n_addr - i,
    {
        out.push(48u8);
        proof {
            assert(wallet@.addresses[i as int].len() == 48);
            assert(wallet.addresses@[i as int]@ == wallet@.addresses[i as int]);
        }
        push_bytes(&mut out, wallet.addresses[i].as_slice());
        proof {
            assert(addr_block_prefix(v.addresses, i + 1 as int) == addr_block_prefix(
                v.addresses,
                i as int,
            ) + seq![48u8] + v.addresses[i as int]);
            assert(out@ =~= seq![SCHEMA_VERSION] + be16(encode_utf8(v.name).len()) + encode_utf8(
                v.name,
            ) + seq![(v.addresses.len() as u8)] + addr_block_prefix(v.addresses, i + 1 as int));
        }
        i = i + 1;
    }
    let cl = wallet.encrypted_entropy.len();
    out.push(cl as u8);
    proof {
        assert((cl as u8) as nat == v.encrypted_entropy.len());
    }
    push_bytes(&mut out, wallet.encrypted_entropy.as_slice());
    push_be16(&mut out, wallet.checksum.len());
    push_bytes(&mut out, wallet.checksum.as_slice());
    let hb = wallet.decryptor_hash.as_str().as_bytes();
    proof {
        assert(hb@ == encode_utf8(v.decryptor_hash));
    }
    push_be16(&mut out, hb.len());
    push_bytes(&mut out, hb);
    proof {
        assert(out@ =~= encode_spec(v));
    }
    out
}

/// Copies the bytes at positions `i` to `j` into a fresh vector.
fn take_range(b: &Vec<u8>, i: usize, j: usize) -> (r: Vec<u8>)
    requires
        i <= j <= b@.len(),
    ensures
        r@ == b@.subrange(i as int, j as int),
{
    let mut r: Vec<u8> = Vec::new();
    let mut k: usize = i;
    while k < j
        invariant
            i <= k <= j <= b@.len(),
            r@ == b@.subrange(i as int, k as int),
        decreases j - k,
    {
        r.push(b[k]);
        proof {
            assert(b@.subrange(i as int, k + 1 as int) =~= b@.subrange(i as int, k as int).push(
                b@[k as int],
            ));
        }
        k = k + 1;
    }
    r
}

/// Parses a wallet record from its stored bytes, checking the whole
/// schema; anything that is not a well-formed record is corrupt.
pub fn wallet_from_bytes(b: &Vec<u8>) -> (r: Result<Wallet, Error>)
    ensures
        r matches Ok(w) ==> decode_spec(b@) == Some(w@) && wallet_wf(w@),
        r matches Err(e) ==> e == Error::WalletCorrupt && decode_spec(b@) is None,
{
    if b.len() < 3 || b[0] != SCHEMA_VERSION {
        return Err(Error::WalletCorrupt);
    }
    let nl = (b[1] as usize) * 256 + (b[2] as usize);
    proof {
        assert(nl as int == be16_val(b@[1], b@[2]) as int);
    }
    if b.len() < 3 + nl + 1 {
        return Err(Error::WalletCorrupt);
    }
    let name_vec = take_range(b, 3, 3 + nl);
    let a0 = 3 + nl;
    if !check_name_bytes(name_vec.as_slice()) {
        return Err(Error::WalletCorrupt);
    }
    if b[a0] != 20 {
        return Err(Error::WalletCorrupt);
    }
    if b.len() < a0 + 1 + 980 + 1 {
        return Err(Error::WalletCorrupt);
    }
    let ghost a0s = a0 as int;
    let mut addresses: Vec<Vec<u8>> = Vec::new();
    let mut i: usize = 0;
    while i < 20
        invariant
            0 <= i <= 20,
            b@.len() >= 3,
            b@[0] == SCHEMA_VERSION,
            a0s == 3 + be16_val(b@[1], b@[2]),
            valid_wallet_name_bytes(b@.subrange(3, a0s)),
            b@[a0s] == 20,
            b@.len() >= a0s + 1 + 980 + 1,
            a0s == a0 as int,
            a0s <= 0x1_0004,
            addresses@.len() == i,
            forall|j: int| 0 <= j < i ==> #[trigger] b@[a0s + 1 + 49 * j] == 48,
            forall|j: int|
                0 <= j < i ==> (#[trigger] addresses@[j])@ == b@.subrange(
                    a0s + 2 + 49 * j,
                    a0s + 2 + 49 * j + 48,
                ),
        decreases 20 - i,
    {
        let p = a0 + 1 + 49 * i;
        if b[p] != 48 {
            proof {
                assert(!(forall|j: int| 0 <= j < 20 ==> #[trigger] b@[a0s + 1 + 49 * j] == 48))
                    by {
                    assert(!(b@[a0s + 1 + 49 * (i as int)] == 48));
                }
            }
            return Err(Error::WalletCorrupt);
        }
        let addr = take_range(b, p + 1, p + 1 + 48);
        addresses.push(addr);
        i = i + 1;
    }
    let c0 = a0 + 1 + 980;
    let cl = b[c0] as usize;
    if b.len() < c0 + 1 + cl + 2 {
        return Err(Error::WalletCorrupt);
    }
    let ct = take_range(b, c0 + 1, c0 + 1 + cl);
    let k0 = c0 + 1 + cl;
    let kl = (b[k0] as usize) * 256 + (b[k0 + 1] as usize);
    if b.len() < k0 + 2 + kl + 2 {
        return Err(Error::WalletCorrupt);
    }
    let ck = take_range(b, k0 + 2, k0 + 2 + kl);
    let h0 = k0 + 2 + kl;
    let hl = (b[h0] as usize) * 256 + (b[h0 + 1] as usize);
    if b.len() != h0 + 2 + hl {
        return Err(Error::WalletCorrupt);
    }
    let hb = take_range(b, h0 + 2, h0 + 2 + hl);
    let ghost hbs = hb@;
    let decryptor_hash = match string_from_utf8(hb) {
        Some(s) => s,
        None => {
            return Err(Error::WalletCorrupt);
        },
    };
    proof {
        assert(ascii_bytes(name_vec@)) by {
            assert forall|j: int| 0 <= j < name_vec@.len() implies name_vec@[j] <= 0x7f by {
                assert(allowed_name_byte(name_vec@[j]));
            }
        }
        lemma_ascii_bytes_valid_utf8(name_vec@);
    }
    let ghost nbs = name_vec@;
    let name = string_from_utf8(name_vec).unwrap();
    let wallet = Wallet { name, addresses, encrypted_entropy: ct, checksum: ck, decryptor_hash };
    proof {
        decode_utf8_encode_utf8(nbs);
        decode_utf8_encode_utf8(hbs);
        assert(wallet@.addresses =~= Seq::new(
            20,
            |j: int| b@.subrange(a0s + 2 + 49 * j, a0s + 2 + 49 * j + 48),
        ));
        assert(forall|j: int|
            0 <= j < wallet@.addresses.len() ==> (#[trigger] wallet@.addresses[j]).len() == 48);
        assert(decode_spec(b@) matches Some(dv) && dv =~= wallet@);
        assert(wallet_wf(wallet@));
    }
    Ok(wallet)
}

} // verus!
