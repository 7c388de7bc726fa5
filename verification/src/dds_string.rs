//! Null-terminated strings in memory of the middleware's allocator.

use vstd::prelude::*;
use vstd::slice::slice_subrange;
use crate::DDSError;

verus! {

/// The bytes that a string of `content` occupies: the content, then the
/// terminator.
pub open spec fn terminated(content: Seq<u8>) -> Seq<u8> {
    content.push(0)
}

/// Whether `len` is the length of the text that `bytes` starts with: the
/// run of bytes before the first zero, or all of `bytes` where none is zero.
pub open spec fn is_text_len(bytes: Seq<u8>, len: int) -> bool {
    &&& 0 <= len <= bytes.len()
    &&& forall|i: int| 0 <= i < len ==> bytes[i] != 0
    &&& len < bytes.len() ==> bytes[len] == 0
}

/// Whether no byte of `content` is zero.
pub open spec fn has_no_zero(content: Seq<u8>) -> bool {
    forall|i: int| 0 <= i < content.len() ==> content[i] != 0
}

/// The length of the text that `bytes` starts with.
pub fn text_len(bytes: &[u8]) -> (len: usize)
    ensures
        is_text_len(bytes@, len as int),
{
    let mut len: usize = 0;
    while len < bytes.len() && bytes[len] != 0
        invariant
            len <= bytes@.len(),
            forall|i: int| 0 <= i < len ==> bytes@[i] != 0,
        decreases bytes@.len() - len,
    {
        len += 1;
    }
    len
}

/// A string as contracts see it.
pub struct StringModel {
    pub address: usize,
    pub image: Seq<u8>,
    pub released: bool,
}

/// The record of one string of the middleware's allocator: where it lies,
/// the bytes written there, and whether it has been freed.
#[derive(Debug)]
pub struct DdsString {
    address: usize,
    image: Vec<u8>,
    released: bool,
}

impl View for DdsString {
    type V = StringModel;

    closed spec fn view(&self) -> StringModel {
        StringModel { address: self.address, image: self.image@, released: self.released }
    }
}

impl DdsString {
    /// The string lies at an address that is not null, and its last byte is
    /// the terminator.
    #[verifier::type_invariant]
    spec fn well_formed(self) -> bool {
        &&& self.address != 0
        &&& self.image@.len() >= 1
        &&& self.image@.last() == 0
    }

    /// How many bytes to ask the allocator for: one more than the content
    /// has, for the terminator. Content that leaves no room for it cannot be
    /// allocated.
    pub fn allocation_size(content: &[u8]) -> (size: Result<usize, DDSError>)
        ensures
            content@.len() < usize::MAX ==> size == Ok::<usize, DDSError>(
                (content@.len() + 1) as usize,
            ),
            content@.len() >= usize::MAX ==> size == Err::<usize, DDSError>(
                DDSError::OutOfResources,
            ),
            size matches Ok(n) ==> n == terminated(content@).len(),
    {
        match content.len().checked_add(1) {
            Some(size) => Ok(size),
            None => Err(DDSError::OutOfResources),
        }
    }

    /// Records a string of `content` at `address`, the address that the
    /// native allocator returned. A null address means that the allocator
    /// had no memory to give. Content that holds a zero byte is recorded
    /// whole; whoever reads the string stops at that byte.
    pub fn new(content: &[u8], address: usize) -> (string: Result<DdsString, DDSError>)
        ensures
            address == 0 ==> (string matches Err(e) && e == DDSError::OutOfResources),
            address != 0 ==> (string matches Ok(s) && s@ == (StringModel {
                address,
                image: terminated(content@),
                released: false,
            })),
    {
        if address == 0 {
            return Err(DDSError::OutOfResources);
        }
        let mut image: Vec<u8> = Vec::new();
        let mut i: usize = 0;
        while i < content.len()
            invariant
                i <= content@.len(),
                image@ == content@.take(i as int),
            decreases content@.len() - i,
        {
            image.push(content[i]);
            i += 1;
            assert(image@ =~= content@.take(i as int));
        }
        assert(content@.take(i as int) =~= content@);
        image.push(0);
        Ok(DdsString { address, image, released: false })
    }

    /// Where the string lies.
    pub fn address(&self) -> (address: usize)
        ensures
            address == self@.address,
            address != 0,
    {
        proof {
            use_type_invariant(self);
        }
        self.address
    }

    /// Every byte of the string, the terminator included: what is written
    /// to the allocated memory.
    pub fn image(&self) -> (bytes: &[u8])
        ensures
            bytes@ == self@.image,
            bytes@.len() >= 1,
            bytes@.last() == 0,
    {
        proof {
            use_type_invariant(self);
        }
        self.image.as_slice()
    }

    /// The text of the string as a reader of the memory sees it: the bytes
    /// before the first terminator. The terminator is not part of it.
    pub fn view_bytes(&self) -> (text: &[u8])
        ensures
            is_text_len(self@.image, text@.len() as int),
            text@ == self@.image.take(text@.len() as int),
            text@.len() < self@.image.len(),
    {
        proof {
            use_type_invariant(self);
        }
        let bytes = self.image.as_slice();
        let len = text_len(bytes);
        assert(len < bytes@.len()) by {
            if len == bytes@.len() {
                assert(bytes@[len - 1] != 0);
            }
        }
        let text = slice_subrange(bytes, 0, len);
        assert(text@ =~= self@.image.take(len as int));
        text
    }

    /// The length of the text, without the terminator.
    pub fn len(&self) -> (len: usize)
        ensures
            is_text_len(self@.image, len as int),
            len < self@.image.len(),
    {
        self.view_bytes().len()
    }

    /// Whether the string has been freed.
    pub fn is_released(&self) -> (released: bool)
        ensures
            released == self@.released,
    {
        self.released
    }

    /// Lets the string go. The first call returns the address to hand to the
    /// native string-free; every later call returns `None`.
    pub fn release(&mut self) -> (address: Option<usize>)
        ensures
            old(self)@.released ==> address.is_none(),
            !old(self)@.released ==> address == Some(old(self)@.address),
            final(self)@ == (StringModel { released: true, ..old(self)@ }),
    {
        proof {
            use_type_invariant(&*self);
        }
        if self.released {
            None
        } else {
            self.released = true;
            Some(self.address)
        }
    }
}

/// A sequence of bytes has one text length.
pub proof fn lemma_text_len_unique(bytes: Seq<u8>, a: int, b: int)
    requires
        is_text_len(bytes, a),
        is_text_len(bytes, b),
    ensures
        a == b,
{
    if a < b {
        assert(bytes[a] == 0);
    } else if b < a {
        assert(bytes[b] == 0);
    }
}

/// Content without a zero byte comes back as it went in: the string made of
/// it is one byte longer, and its text is the content, terminator not
/// counted.
pub proof fn lemma_round_trip(content: Seq<u8>)
    requires
        has_no_zero(content),
    ensures
        terminated(content).len() == content.len() + 1,
        is_text_len(terminated(content), content.len() as int),
        terminated(content).take(content.len() as int) == content,
        terminated(content).last() == 0,
{
    assert(terminated(content).take(content.len() as int) =~= content);
}

} // verus!
