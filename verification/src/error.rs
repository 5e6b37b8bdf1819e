use vstd::prelude::*;

verus! {

/// Error domains distinguished by the shim, mirroring the domains the
/// legacy header allocates.
pub const MONGOC_ERROR_DOMAIN_ARGUMENT: u32 = 1;

pub const MONGOC_ERROR_DOMAIN_BSON: u32 = 2;

pub const MONGOC_ERROR_DOMAIN_DRIVER: u32 = 3;

pub const MONGOC_ERROR_DOMAIN_UNSUPPORTED: u32 = 4;

/// The legacy record reserves 504 bytes for the message: 503 content bytes
/// plus a trailing NUL, which the byte vector here does not store.
pub const BSON_ERROR_MESSAGE_MAX: usize = 503;

/// How a message is fitted into the fixed-size record: anything past the
/// 503rd byte is dropped.
pub open spec fn truncated_message(m: Seq<u8>) -> Seq<u8> {
    if m.len() <= 503 {
        m
    } else {
        m.subrange(0, 503)
    }
}

/// The error record failing operations fill: a domain, a numeric code, and a
/// message of at most 503 bytes. The C layout fixes the message at 504 bytes
/// including its NUL terminator; here the message is the bytes before that
/// terminator.
#[allow(non_camel_case_types)]
pub struct bson_error_t {
    pub domain: u32,
    pub code: u32,
    pub message: Vec<u8>,
}

impl bson_error_t {
    pub open spec fn wf(&self) -> bool {
        self.message@.len() <= 503
    }

    pub open spec fn is_error(&self, domain: u32, code: u32, msg: Seq<u8>) -> bool {
        &&& self.domain == domain
        &&& self.code == code
        &&& self.message@ == truncated_message(msg)
    }

    /// A cleared record, as a caller would stack-allocate it.
    pub fn new() -> (e: bson_error_t)
        ensures
            e.domain == 0,
            e.code == 0,
            e.message@ == Seq::<u8>::empty(),
            e.wf(),
    {
        bson_error_t { domain: 0, code: 0, message: Vec::new() }
    }
}

/// Fills a caller-supplied error record, truncating the message to the
/// 503 bytes the fixed-size C record can hold.
pub fn bson_set_error(err: &mut bson_error_t, domain: u32, code: u32, msg: &[u8])
    ensures
        final(err).is_error(domain, code, msg@),
        final(err).wf(),
{
    let limit: usize = if msg.len() <= BSON_ERROR_MESSAGE_MAX {
        msg.len()
    } else {
        BSON_ERROR_MESSAGE_MAX
    };
    let mut out: Vec<u8> = Vec::new();
    let mut i: usize = 0;
    while i < limit
        invariant
            i <= limit,
            limit <= msg@.len(),
            limit == truncated_message(msg@).len(),
            out@ == truncated_message(msg@).subrange(0, i as int),
        decreases limit - i,
    {
        out.push(msg[i]);
        i = i + 1;
        proof {
            assert(out@ =~= truncated_message(msg@).subrange(0, i as int));
        }
    }
    proof {
        assert(out@ =~= truncated_message(msg@));
    }
    err.domain = domain;
    err.code = code;
    err.message = out;
}

} // verus!
