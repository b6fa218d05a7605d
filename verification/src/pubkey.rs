use vstd::prelude::*;

verus! {

/// The identifier of an account or of a program: thirty-two bytes with no
/// structure that this library relies on.
#[derive(Clone, Copy, Debug, PartialEq, Eq, Hash)]
pub struct Pubkey(pub [u8; 32]);

impl View for Pubkey {
    type V = Seq<u8>;

    open spec fn view(&self) -> Seq<u8> {
        self.0@
    }
}

impl Pubkey {
    /// The key made of `bytes`.
    pub fn new_from_array(bytes: [u8; 32]) -> (key: Pubkey)
        ensures
            key@ == bytes@,
    {
        Pubkey(bytes)
    }

    /// The bytes of the key.
    pub fn to_bytes(&self) -> (bytes: [u8; 32])
        ensures
            bytes@ == self@,
    {
        self.0
    }

    /// The bytes of the key, borrowed.
    pub fn as_bytes(&self) -> (bytes: &[u8])
        ensures
            bytes@ == self@,
    {
        self.0.as_slice()
    }
}

impl Default for Pubkey {
    /// The key whose bytes are all zero.
    fn default() -> (key: Pubkey)
        ensures
            key@ == Seq::new(32, |i: int| 0u8),
    {
        let key = Pubkey([0u8; 32]);
        assert(key@ =~= Seq::new(32, |i: int| 0u8));
        key
    }
}

/// Every key is thirty-two bytes long.
pub proof fn lemma_pubkey_len(key: Pubkey)
    ensures
        key@.len() == 32,
{
}

/// Two keys with the same bytes are the same key.
pub proof fn lemma_pubkey_ext_equal(first: Pubkey, second: Pubkey)
    requires
        first@ == second@,
    ensures
        first == second,
{
    assert(first.0 =~= second.0);
}

} // verus!
