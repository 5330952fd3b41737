use vstd::prelude::*;

verus! {

/// The only show-control command the engine accepts over the network:
/// the bytes of "/mplaylist/fire_next".
pub open spec fn fire_next_command() -> Seq<u8> {
    seq![
        // "/mplaylist"
        47u8, 109u8, 112u8, 108u8, 97u8, 121u8, 108u8, 105u8, 115u8, 116u8,
        // "/fire_next"
        47u8, 102u8, 105u8, 114u8, 101u8, 95u8, 110u8, 101u8, 120u8, 116u8,
    ]
}

/// The bytes of the fire-next command.
pub fn fire_next_bytes() -> (v: Vec<u8>)
    ensures
        v@ == fire_next_command(),
{
    let v: Vec<u8> = vec![
        // "/mplaylist"
        47u8, 109u8, 112u8, 108u8, 97u8, 121u8, 108u8, 105u8, 115u8, 116u8,
        // "/fire_next"
        47u8, 102u8, 105u8, 114u8, 101u8, 95u8, 110u8, 101u8, 120u8, 116u8,
    ];
    assert(v@ =~= fire_next_command());
    v
}

/// Whether `address` is the address pattern of the OSC packet `packet`:
/// the bytes before its first NUL (all of it when it holds none).
pub open spec fn address_is(packet: Seq<u8>, address: Seq<u8>) -> bool {
    &&& address.len() <= packet.len()
    &&& packet.subrange(0, address.len() as int) == address
    &&& forall|j: int| 0 <= j < address.len() ==> address[j] != 0
    &&& (address.len() == packet.len() || packet[address.len() as int] == 0)
}

/// No byte of the command is NUL.
proof fn lemma_command_has_no_nul()
    ensures
        forall|j: int| 0 <= j < fire_next_command().len() ==> fire_next_command()[j] != 0,
{
    let c = fire_next_command();
    assert forall|j: int| 0 <= j < c.len() implies c[j] != 0 by {
        assert(c[j] >= 47) by {
            assert(c[0] >= 47 && c[1] >= 47 && c[2] >= 47 && c[3] >= 47 && c[4] >= 47);
            assert(c[5] >= 47 && c[6] >= 47 && c[7] >= 47 && c[8] >= 47 && c[9] >= 47);
            assert(c[10] >= 47 && c[11] >= 47 && c[12] >= 47 && c[13] >= 47 && c[14] >= 47);
            assert(c[15] >= 47 && c[16] >= 47 && c[17] >= 47 && c[18] >= 47 && c[19] >= 47);
        }
    }
}

/// Strict match of a received datagram: true exactly when its OSC address
/// pattern (the bytes before the first NUL) is the fire-next command.
/// Any other address, including one that merely contains the command, is
/// refused.
pub fn is_fire_next(payload: &[u8]) -> (b: bool)
    ensures
        b == address_is(payload@, fire_next_command()),
{
    let command = fire_next_bytes();
    let n = command.len();
    proof {
        lemma_command_has_no_nul();
    }
    if payload.len() < n {
        return false;
    }
    let mut k: usize = 0;
    while k < n
        invariant
            n == command@.len(),
            command@ == fire_next_command(),
            n <= payload@.len(),
            k <= n,
            forall|j: int| 0 <= j < k ==> payload@[j] == command@[j],
        decreases n - k,
    {
        if payload[k] != command[k] {
            assert(payload@.subrange(0, n as int)[k as int] == payload@[k as int]);
            return false;
        }
        k = k + 1;
    }
    assert(payload@.subrange(0, n as int) =~= command@);
    payload.len() == n || payload[n] == 0
}

} // verus!
