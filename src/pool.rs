use vstd::prelude::*;
use vstd::arithmetic::power2::{pow2, lemma_pow2_adds, lemma_pow2_pos};
use vstd::bits::{lemma_u32_shl_is_mul, lemma_u32_pow2_no_overflow};
use rand::Rng;
use crate::error::DnsError;

verus! {

/// The network address and prefix length that a CIDR string denotes, where it
/// is a valid IPv4 network.
pub uninterp spec fn cidr_network(s: Seq<char>) -> Option<(u32, u8)>;

/// Relies on `ipnetwork::Ipv4Network`'s `FromStr`, `network` and `prefix`:
/// the prefix never exceeds 32 (`Ipv4Network::new`), and the network address
/// is the address with its `32 - prefix` low bits cleared (`mask`, `network`).
#[verifier::external_body]
fn parse_network(cidr: &str) -> (r: Option<(u32, u8)>)
    ensures
        r == cidr_network(cidr@),
        r matches Some((b, p)) ==> p <= 32 && (b as nat) % pow2((32 - p) as nat) == 0,
{
    let n = cidr.parse::<ipnetwork::Ipv4Network>().ok()?;
    Some((u32::from(n.network()), n.prefix()))
}

/// Relies on `rand::thread_rng` and `Rng::gen_range`, which yields a value of
/// the half-open range and panics only on an empty one.
#[verifier::external_body]
fn random_in(low: u32, high: u32) -> (r: u32)
    requires
        low < high,
    ensures
        low <= r < high,
{
    rand::thread_rng().gen_range(low..high)
}

/// The number of addresses in a block with the given prefix length.
pub open spec fn block_size(prefix: nat) -> nat {
    pow2((32 - prefix) as nat)
}

/// An IPv4 address block from which answer addresses are drawn.
pub struct Ipv4 {
    base: u32,
    range: u32,
}

impl Ipv4 {
    /// The network address of the block.
    pub closed spec fn spec_base(&self) -> u32 {
        self.base
    }

    /// The number of addresses in the block.
    pub closed spec fn spec_range(&self) -> u32 {
        self.range
    }

    /// The network address of the block.
    #[verifier::when_used_as_spec(spec_base)]
    pub fn base(&self) -> (r: u32)
        ensures
            r == self.spec_base(),
    {
        self.base
    }

    /// The number of addresses in the block.
    #[verifier::when_used_as_spec(spec_range)]
    pub fn range(&self) -> (r: u32)
        ensures
            r == self.spec_range(),
    {
        self.range
    }

    /// The block holds a usable address and ends within the address space.
    pub open spec fn wf(&self) -> bool {
        self.range() > 2 && self.base() as nat + self.range() as nat <= 0x1_0000_0000
    }

    /// Builds the pool of a CIDR string such as `"192.168.0.0/16"`.
    pub fn from_cidr(cidr: &str) -> (r: Result<Ipv4, DnsError>)
        ensures
            cidr_network(cidr@) is None ==> r == Err::<Ipv4, DnsError>(DnsError::InvalidNetwork),
            cidr_network(cidr@) matches Some((b, p)) ==> if 1 <= p <= 30 {
                r matches Ok(pool) && pool.wf() && pool.base() == b && pool.range() == block_size(
                    p as nat,
                )
            } else {
                r == Err::<Ipv4, DnsError>(DnsError::RangeTooSmall)
            },
    {
        let (base, prefix) = match parse_network(cidr) {
            Some(n) => n,
            None => return Err(DnsError::InvalidNetwork),
        };
        if prefix < 1 || prefix > 30 {
            return Err(DnsError::RangeTooSmall);
        }
        let shift: u32 = 32 - prefix as u32;
        proof {
            lemma_u32_pow2_no_overflow(shift as nat);
            lemma_u32_shl_is_mul(1, shift);
        }
        let range: u32 = 1u32 << shift;
        proof {
            lemma_block_fits(base as nat, shift as nat, prefix as nat);
        }
        Ok(Ipv4 { base, range })
    }

    /// Draws an address of the block, never its first nor its last one.
    pub fn get_ip(&self) -> (r: u32)
        requires
            self.wf(),
        ensures
            self.base() + 1 <= r <= self.base() + self.range() - 2,
    {
        let offset = random_in(1, self.range - 1);
        self.base + offset
    }
}

/// An aligned block of `2^shift` addresses below `2^32` ends within the
/// address space, and holds more than two addresses when `shift >= 2`.
proof fn lemma_block_fits(base: nat, shift: nat, prefix: nat)
    requires
        base < 0x1_0000_0000,
        shift + prefix == 32,
        1 <= prefix <= 30,
        base % pow2(shift) == 0,
    ensures
        base + pow2(shift) <= 0x1_0000_0000,
        pow2(shift) > 2,
{
    lemma_pow2_adds(shift, prefix);
    lemma_pow2_adds(1, (shift - 1) as nat);
    lemma_pow2_adds(1, (shift - 2) as nat);
    lemma_pow2_adds(1, 1);
    lemma_pow2_pos(shift);
    lemma_pow2_pos((shift - 2) as nat);
    lemma_pow2_pos(prefix);
    vstd::arithmetic::power2::lemma2_to64();
    let r = pow2(shift);
    let k = base / r;
    vstd::arithmetic::div_mod::lemma_fundamental_div_mod(base as int, r as int);
    assert(base == k * r);
    assert(r * pow2(prefix) == 0x1_0000_0000);
    assert(k < pow2(prefix)) by (nonlinear_arith)
        requires
            base == k * r,
            base < r * pow2(prefix),
            r > 0,
    ;
    assert(base + r <= 0x1_0000_0000) by (nonlinear_arith)
        requires
            base == k * r,
            k + 1 <= pow2(prefix),
            r * pow2(prefix) == 0x1_0000_0000,
            r > 0,
    ;
}

} // verus!
