//! The message disciplines: scalar messages, memory messages and replies.

use vstd::arithmetic::div_mod::lemma_fundamental_div_mod_converse;
use vstd::prelude::*;

verus! {

/// The largest memory region that one call may lend, in bytes.
pub const MAX_BUFFER_SIZE: usize = 4096;

/// The failures a caller can recover from.
#[derive(Clone, Copy, Debug, PartialEq, Eq, Structural)]
pub enum Error {
    /// The target name or address has no live recipient.
    ServerNotFound,
    /// A second registration was attempted while one is live.
    MemoryInUse,
    /// A payload could not be marshalled.
    InternalError,
    /// A payload does not fit the container it is copied into.
    AccessDenied,
    /// Any other kernel error, by its number.
    Other(usize),
}

/// The kernel's number for each error.
pub open spec fn spec_error_code(e: Error) -> int {
    match e {
        Error::MemoryInUse => 4,
        Error::ServerNotFound => 9,
        Error::InternalError => 14,
        Error::AccessDenied => 23,
        Error::Other(code) => code as int,
    }
}

/// The error that a kernel number stands for.
pub open spec fn spec_error_from_code(code: int) -> Error {
    if code == 4 {
        Error::MemoryInUse
    } else if code == 9 {
        Error::ServerNotFound
    } else if code == 14 {
        Error::InternalError
    } else if code == 23 {
        Error::AccessDenied
    } else {
        Error::Other(code as usize)
    }
}

impl Error {
    /// Whether this value is the one `from_code` gives for its number.
    pub open spec fn canonical(self) -> bool {
        self matches Error::Other(code) ==> code != 4 && code != 9 && code != 14 && code != 23
    }

    /// The error that the kernel numbers `code`.
    pub fn from_code(code: usize) -> (e: Error)
        ensures
            e == spec_error_from_code(code as int),
            e.canonical(),
            spec_error_code(e) == code,
    {
        if code == 4 {
            Error::MemoryInUse
        } else if code == 9 {
            Error::ServerNotFound
        } else if code == 14 {
            Error::InternalError
        } else if code == 23 {
            Error::AccessDenied
        } else {
            Error::Other(code)
        }
    }

    /// The kernel's number for the error.
    pub fn code(&self) -> (code: usize)
        ensures
            code == spec_error_code(*self),
            self.canonical() ==> spec_error_from_code(code as int) == *self,
    {
        match self {
            Error::MemoryInUse => 4,
            Error::ServerNotFound => 9,
            Error::InternalError => 14,
            Error::AccessDenied => 23,
            Error::Other(code) => *code,
        }
    }
}

/// A message of an opcode and up to four machine words.
#[derive(Clone, Copy, Debug, PartialEq, Eq, Structural)]
pub struct ScalarMessage {
    pub id: usize,
    pub arg1: usize,
    pub arg2: usize,
    pub arg3: usize,
    pub arg4: usize,
}

/// A message of an opcode and a memory region, with the place of the root
/// object in the region.
#[derive(Clone, Debug, PartialEq, Eq)]
pub struct MemoryMessage {
    pub id: usize,
    pub buf: Vec<u8>,
    pub offset: usize,
}

/// What a `MemoryMessage` holds.
pub struct MemoryMessageView {
    pub id: usize,
    pub buf: Seq<u8>,
    pub offset: usize,
}

impl View for MemoryMessage {
    type V = MemoryMessageView;

    open spec fn view(&self) -> MemoryMessageView {
        MemoryMessageView { id: self.id, buf: self.buf@, offset: self.offset }
    }
}

/// One message, by the discipline it travels under.
#[derive(Clone, Debug, PartialEq, Eq)]
pub enum Message {
    /// Fire and forget: the sender goes on once the message is queued.
    Scalar(ScalarMessage),
    /// The sender is suspended until the receiver replies.
    BlockingScalar(ScalarMessage),
    /// The region is lent until the receiver returns it.
    Borrow(MemoryMessage),
    /// The region is lent, and the receiver may change it before returning it.
    MutableBorrow(MemoryMessage),
    /// The region is given away.
    Move(MemoryMessage),
}

/// What a `Message` holds.
pub enum MessageView {
    Scalar(ScalarMessage),
    BlockingScalar(ScalarMessage),
    Borrow(MemoryMessageView),
    MutableBorrow(MemoryMessageView),
    Move(MemoryMessageView),
}

impl View for Message {
    type V = MessageView;

    open spec fn view(&self) -> MessageView {
        match self {
            Message::Scalar(m) => MessageView::Scalar(*m),
            Message::BlockingScalar(m) => MessageView::BlockingScalar(*m),
            Message::Borrow(m) => MessageView::Borrow(m@),
            Message::MutableBorrow(m) => MessageView::MutableBorrow(m@),
            Message::Move(m) => MessageView::Move(m@),
        }
    }
}

impl MessageView {
    /// The opcode of the message.
    pub open spec fn id(self) -> usize {
        match self {
            MessageView::Scalar(m) => m.id,
            MessageView::BlockingScalar(m) => m.id,
            MessageView::Borrow(m) => m.id,
            MessageView::MutableBorrow(m) => m.id,
            MessageView::Move(m) => m.id,
        }
    }

    /// Whether sending the message suspends the sender until the receiver
    /// has answered.
    pub open spec fn is_blocking(self) -> bool {
        self is BlockingScalar || self is Borrow || self is MutableBorrow
    }

    /// A non-blocking message of `id` and four words.
    pub open spec fn scalar(
        id: usize,
        arg1: usize,
        arg2: usize,
        arg3: usize,
        arg4: usize,
    ) -> MessageView {
        MessageView::Scalar(ScalarMessage { id, arg1, arg2, arg3, arg4 })
    }

    /// A blocking message of `id` and four words.
    pub open spec fn blocking_scalar(
        id: usize,
        arg1: usize,
        arg2: usize,
        arg3: usize,
        arg4: usize,
    ) -> MessageView {
        MessageView::BlockingScalar(ScalarMessage { id, arg1, arg2, arg3, arg4 })
    }
}

impl Message {
    /// A non-blocking message of `id` and four words.
    pub fn new_scalar(id: usize, arg1: usize, arg2: usize, arg3: usize, arg4: usize) -> (m: Message)
        ensures
            m@ == MessageView::scalar(id, arg1, arg2, arg3, arg4),
    {
        Message::Scalar(ScalarMessage { id, arg1, arg2, arg3, arg4 })
    }

    /// A blocking message of `id` and four words.
    pub fn new_blocking_scalar(id: usize, arg1: usize, arg2: usize, arg3: usize, arg4: usize) -> (m:
        Message)
        ensures
            m@ == MessageView::blocking_scalar(id, arg1, arg2, arg3, arg4),
    {
        Message::BlockingScalar(ScalarMessage { id, arg1, arg2, arg3, arg4 })
    }

    /// The opcode of the message.
    pub fn id(&self) -> (id: usize)
        ensures
            id == self@.id(),
    {
        match self {
            Message::Scalar(m) => m.id,
            Message::BlockingScalar(m) => m.id,
            Message::Borrow(m) => m.id,
            Message::MutableBorrow(m) => m.id,
            Message::Move(m) => m.id,
        }
    }

    /// Whether sending the message suspends the sender until the receiver
    /// has answered.
    pub fn is_blocking(&self) -> (b: bool)
        ensures
            b == self@.is_blocking(),
    {
        match self {
            Message::BlockingScalar(_) | Message::Borrow(_) | Message::MutableBorrow(_) => true,
            Message::Scalar(_) | Message::Move(_) => false,
        }
    }
}

/// What the kernel hands back for a message that was sent.
#[derive(Clone, Copy, Debug, PartialEq, Eq, Structural)]
pub enum Reply {
    /// The message was taken, and there is nothing to hand back.
    Done,
    /// The receiver answered with one word.
    Scalar1(usize),
    /// The receiver answered with two words.
    Scalar2(usize, usize),
    /// The receiver returned the region it was lent.
    MemoryReturned,
    /// Anything else.
    Other,
}

/// The outcome of a send whose reply carries nothing: success as soon as the
/// kernel has taken the message, whatever it handed back, and the kernel's
/// error otherwise.
pub fn acknowledge(response: Result<Reply, Error>) -> (r: Result<(), Error>)
    ensures
        r == match response {
            Ok(_) => Ok::<(), Error>(()),
            Err(e) => Err(e),
        },
{
    match response {
        Ok(_) => Ok(()),
        Err(e) => Err(e),
    }
}

/// A signed 16-bit value as the unsigned 16-bit value with the same bits.
pub open spec fn spec_bits16(v: int) -> int {
    if v < 0 {
        v + 0x1_0000
    } else {
        v
    }
}

/// The signed 16-bit value with the bits of an unsigned 16-bit value.
pub open spec fn spec_signed16(bits: int) -> int {
    if bits >= 0x8000 {
        bits - 0x1_0000
    } else {
        bits
    }
}

/// The low 16 bits of a word that hold `v`.
pub fn word_from_i16(v: i16) -> (w: usize)
    ensures
        w == spec_bits16(v as int),
        w < 0x1_0000,
{
    if v < 0 {
        (v as i32 + 0x1_0000) as usize
    } else {
        v as usize
    }
}

/// The signed value that the low 16 bits of `w` hold.
pub fn word_to_i16(w: usize) -> (v: i16)
    ensures
        v == spec_signed16(w as int % 0x1_0000),
{
    let bits: usize = w % 0x1_0000;
    if bits >= 0x8000 {
        (bits as i32 - 0x1_0000) as i16
    } else {
        bits as i16
    }
}

/// A word made of a low part below `base` and a high part splits back into
/// the two.
pub proof fn lemma_split(lo: int, hi: int, base: int)
    requires
        0 <= lo < base,
    ensures
        (lo + hi * base) % base == lo,
        (lo + hi * base) / base == hi,
{
    lemma_fundamental_div_mod_converse(lo + hi * base, base, hi, lo);
}

/// Writing a signed 16-bit value into a word and reading it back gives the
/// value.
pub proof fn lemma_bits16_round_trip(v: i16)
    ensures
        0 <= spec_bits16(v as int) < 0x1_0000,
        spec_signed16(spec_bits16(v as int) % 0x1_0000) == v,
{
}

/// One send to perform: the message, and the connection to send it on.
#[derive(Clone, Debug, PartialEq, Eq)]
pub struct Call {
    pub conn: u32,
    pub message: Message,
}

impl Call {
    /// Whether the call is `message` sent on `conn`.
    pub open spec fn sends(self, conn: u32, message: MessageView) -> bool {
        self.conn == conn && self.message@ == message
    }
}

/// A memory region made ready for lending: an archive no larger than
/// `MAX_BUFFER_SIZE`, with the place of its root object. A region has one
/// owner at a time, so it cannot be cloned, and lending it gives it up.
#[derive(Debug, PartialEq, Eq)]
pub struct Buffer {
    data: Vec<u8>,
    offset: usize,
}

/// Whether an archive of `len` bytes with its root at `offset` can be lent.
pub open spec fn spec_lendable(len: nat, offset: usize) -> bool {
    len <= MAX_BUFFER_SIZE && offset <= len
}

impl Buffer {
    /// The bytes of the region.
    pub closed spec fn data(self) -> Seq<u8> {
        self.data@
    }

    /// The place of the root object.
    pub closed spec fn offset(self) -> usize {
        self.offset
    }

    #[verifier::type_invariant]
    pub closed spec fn wf(self) -> bool {
        spec_lendable(self.data@.len(), self.offset)
    }

    /// The memory message of this region under the opcode `id`.
    pub open spec fn spec_memory(self, id: usize) -> MemoryMessageView {
        MemoryMessageView { id, buf: self.data(), offset: self.offset() }
    }

    /// Takes an archive for lending. An archive that is larger than
    /// `MAX_BUFFER_SIZE`, or whose root lies outside it, is refused with
    /// `InternalError`, and nothing is made that could be lent.
    pub fn from_archive(archive: Vec<u8>, offset: usize) -> (r: Result<Buffer, Error>)
        ensures
            match r {
                Ok(b) => spec_lendable(archive@.len(), offset) && b.data() == archive@
                    && b.offset() == offset,
                Err(e) => !spec_lendable(archive@.len(), offset) && e == Error::InternalError,
            },
    {
        if archive.len() > MAX_BUFFER_SIZE || offset > archive.len() {
            Err(Error::InternalError)
        } else {
            Ok(Buffer { data: archive, offset })
        }
    }

    /// The number of bytes in the region.
    pub fn len(&self) -> (n: usize)
        ensures
            n == self.data().len(),
            n <= MAX_BUFFER_SIZE,
    {
        proof {
            use_type_invariant(self);
        }
        self.data.len()
    }

    /// The place of the root object.
    pub fn root(&self) -> (offset: usize)
        ensures
            offset == self.offset(),
            offset <= self.data().len(),
    {
        proof {
            use_type_invariant(self);
        }
        self.offset
    }

    /// The bytes of the region.
    pub fn as_bytes(&self) -> (bytes: &Vec<u8>)
        ensures
            bytes@ == self.data(),
    {
        &self.data
    }

    /// Lends the region on `conn` under the opcode `id`, read-only by
    /// convention.
    pub fn lend(self, conn: u32, id: usize) -> (call: Call)
        ensures
            call.sends(conn, MessageView::Borrow(self.spec_memory(id))),
    {
        Call {
            conn,
            message: Message::Borrow(MemoryMessage { id, buf: self.data, offset: self.offset }),
        }
    }

    /// Lends the region on `conn` under the opcode `id`, for the receiver to
    /// change.
    pub fn lend_mut(self, conn: u32, id: usize) -> (call: Call)
        ensures
            call.sends(conn, MessageView::MutableBorrow(self.spec_memory(id))),
    {
        Call {
            conn,
            message: Message::MutableBorrow(
                MemoryMessage { id, buf: self.data, offset: self.offset },
            ),
        }
    }

    /// Gives the region away on `conn` under the opcode `id`.
    pub fn send(self, conn: u32, id: usize) -> (call: Call)
        ensures
            call.sends(conn, MessageView::Move(self.spec_memory(id))),
    {
        Call {
            conn,
            message: Message::Move(MemoryMessage { id, buf: self.data, offset: self.offset }),
        }
    }
}

/// Whether `response` is what a request answered with two words may bring:
/// a kernel error, or two words.
pub open spec fn spec_two_words(response: Result<Reply, Error>) -> bool {
    response matches Ok(reply) ==> reply is Scalar2
}

/// Whether `response` is what a request answered with one word may bring:
/// a kernel error, or one word.
pub open spec fn spec_one_word(response: Result<Reply, Error>) -> bool {
    response matches Ok(reply) ==> reply is Scalar1
}

/// Whether `response` is a kernel error or an answer of one word.
pub fn is_one_word(response: &Result<Reply, Error>) -> (b: bool)
    ensures
        b == spec_one_word(*response),
{
    match response {
        Ok(Reply::Scalar1(_)) => true,
        Ok(_) => false,
        Err(_) => true,
    }
}

/// Whether `response` is a kernel error or an answer of two words.
pub fn is_two_words(response: &Result<Reply, Error>) -> (b: bool)
    ensures
        b == spec_two_words(*response),
{
    match response {
        Ok(Reply::Scalar2(_, _)) => true,
        Ok(_) => false,
        Err(_) => true,
    }
}

/// The address of a server's inbound queue: four 32-bit words.
#[derive(Clone, Copy, Debug, PartialEq, Eq)]
pub struct ServerAddress {
    pub words: (u32, u32, u32, u32),
}

/// The kernel's server ID, `xous::SID`, carried through as it is.
#[verifier::external_type_specification]
#[verifier::external_body]
pub struct ExSid(xous::SID);

/// The four words that a kernel server ID is made of, in order.
pub uninterp spec fn sid_words(sid: xous::SID) -> Seq<u32>;

/// Calls `xous::SID::to_u32`, which hands out the four words of the ID in
/// order.
#[verifier::external_body]
pub(crate) fn sid_to_u32(sid: &xous::SID) -> (words: (u32, u32, u32, u32))
    ensures
        seq![words.0, words.1, words.2, words.3] == sid_words(*sid),
{
    sid.to_u32()
}

/// Calls `xous::SID::from_u32`, which makes the ID of four words in order.
#[verifier::external_body]
pub(crate) fn sid_from_u32(a0: u32, a1: u32, a2: u32, a3: u32) -> (sid: xous::SID)
    ensures
        sid_words(sid) == seq![a0, a1, a2, a3],
{
    xous::SID::from_u32(a0, a1, a2, a3)
}

/// The low 32 bits of a machine word.
pub open spec fn spec_low32(w: usize) -> u32 {
    (w as int % 0x1_0000_0000) as u32
}

/// The low 32 bits of a machine word.
pub fn low32(w: usize) -> (r: u32)
    ensures
        r == spec_low32(w),
{
    (w as u64 % 0x1_0000_0000) as u32
}

impl ServerAddress {
    /// The four words of the address, in order.
    pub open spec fn spec_words(self) -> Seq<u32> {
        seq![self.words.0, self.words.1, self.words.2, self.words.3]
    }

    /// The address that a kernel server ID stands for.
    pub fn from_sid(sid: &xous::SID) -> (a: ServerAddress)
        ensures
            a.spec_words() == sid_words(*sid),
    {
        ServerAddress { words: sid_to_u32(sid) }
    }

    /// The kernel server ID of the address.
    pub fn to_sid(&self) -> (sid: xous::SID)
        ensures
            sid_words(sid) == self.spec_words(),
    {
        sid_from_u32(self.words.0, self.words.1, self.words.2, self.words.3)
    }

    /// The four message words that carry the address.
    pub open spec fn spec_args(self) -> (usize, usize, usize, usize) {
        (
            self.words.0 as usize,
            self.words.1 as usize,
            self.words.2 as usize,
            self.words.3 as usize,
        )
    }

    /// The four message words that carry the address.
    pub fn to_args(&self) -> (a: (usize, usize, usize, usize))
        ensures
            a == self.spec_args(),
    {
        (
            self.words.0 as usize,
            self.words.1 as usize,
            self.words.2 as usize,
            self.words.3 as usize,
        )
    }

    /// The address that four message words carry: the low 32 bits of each.
    pub open spec fn spec_from_args(a0: usize, a1: usize, a2: usize, a3: usize) -> ServerAddress {
        ServerAddress { words: (spec_low32(a0), spec_low32(a1), spec_low32(a2), spec_low32(a3)) }
    }

    /// Rebuilds an address from the four message words that carried it.
    pub fn from_args(a0: usize, a1: usize, a2: usize, a3: usize) -> (a: ServerAddress)
        ensures
            a == ServerAddress::spec_from_args(a0, a1, a2, a3),
    {
        ServerAddress { words: (low32(a0), low32(a1), low32(a2), low32(a3)) }
    }
}

/// Two addresses of the same four words are the same address.
pub proof fn lemma_address_by_words(a: ServerAddress, b: ServerAddress)
    requires
        a.spec_words() == b.spec_words(),
    ensures
        a == b,
{
    assert(a.spec_words()[0] == b.spec_words()[0]);
    assert(a.spec_words()[1] == b.spec_words()[1]);
    assert(a.spec_words()[2] == b.spec_words()[2]);
    assert(a.spec_words()[3] == b.spec_words()[3]);
}

/// Carrying an address in four message words and rebuilding it gives the
/// address back.
pub proof fn lemma_address_round_trip(a: ServerAddress)
    ensures
        ({
            let w = a.spec_args();
            ServerAddress::spec_from_args(w.0, w.1, w.2, w.3) == a
        }),
{
}

} // verus!
