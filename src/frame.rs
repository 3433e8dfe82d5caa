//! CAN and CAN-FD frames with a bounded payload and an identifier masked to
//! the width of its message type.

use vstd::prelude::*;
use vstd::slice::slice_subrange;

verus! {

/// Mask of an 11-bit (standard) identifier.
pub const STANDARD_MASK: u32 = 0x07_FF;

/// Mask of a 29-bit (extended) identifier.
pub const EXTENDED_MASK: u32 = 0x1F_FF_FF_FF;

/// Driver tag of a frame with an 11-bit identifier.
pub const MESSAGE_STANDARD: u8 = 0x00;

/// Driver tag of a frame with a 29-bit identifier.
pub const MESSAGE_EXTENDED: u8 = 0x02;

/// Largest payload of a classic CAN frame.
pub const CAN_MAX_DLC: usize = 8;

/// Largest payload of a CAN-FD frame.
pub const CAN_FD_MAX_DLC: usize = 64;

/// The addressing of a frame: 11-bit or 29-bit identifiers.
#[derive(Debug, Clone, Copy, PartialEq, Eq, Structural)]
pub enum MessageType {
    Standard,
    Extended,
}

/// Why a frame could not be built: a payload longer than the frame kind
/// allows, or an identifier wider than its message type.
#[derive(Debug, Clone, Copy, PartialEq, Eq, Structural)]
pub enum FrameConstructionError {
    TooMuchData,
    CanIdMessageTypeMismatch,
}

/// The identifier mask that a message type implies.
pub open spec fn mask_of(t: MessageType) -> u32 {
    match t {
        MessageType::Standard => STANDARD_MASK,
        MessageType::Extended => EXTENDED_MASK,
    }
}

/// What a frame means: its masked identifier, its message type and the bytes
/// of its payload, without the padding behind them.
pub struct FrameView {
    pub id: u32,
    pub msg_type: MessageType,
    pub payload: Seq<u8>,
}

/// The frame that construction yields from an identifier, a message type and
/// a payload, for a frame kind whose payload holds at most `max` bytes.
pub open spec fn spec_construct(max: nat, id: u32, t: MessageType, data: Seq<u8>) -> Result<
    FrameView,
    FrameConstructionError,
> {
    if data.len() > max {
        Err(FrameConstructionError::TooMuchData)
    } else {
        Ok(FrameView { id: id & mask_of(t), msg_type: t, payload: data })
    }
}

/// Masking twice with one mask is masking once.
proof fn lemma_mask_twice(x: u32, m: u32)
    ensures
        (x & m) & m == x & m,
{
    assert((x & m) & m == x & m) by (bit_vector);
}

/// The message type that a driver tag stands for: extended where its
/// extended bit is set.
pub open spec fn type_of_tag(tag: u8) -> MessageType {
    if tag & MESSAGE_EXTENDED != 0 {
        MessageType::Extended
    } else {
        MessageType::Standard
    }
}

/// The driver tag of a message type.
pub open spec fn tag_of(t: MessageType) -> u8 {
    match t {
        MessageType::Standard => MESSAGE_STANDARD,
        MessageType::Extended => MESSAGE_EXTENDED,
    }
}

/// The frame that a message in the driver's layout holds: identifier, tag,
/// length and the whole payload buffer. A length beyond the frame kind's
/// bound, or an identifier wider than its tag allows, is refused.
pub open spec fn spec_decode(max: nat, id: u32, tag: u8, len: u8, buf: Seq<u8>) -> Result<
    FrameView,
    FrameConstructionError,
> {
    if len > max {
        Err(FrameConstructionError::TooMuchData)
    } else if id & mask_of(type_of_tag(tag)) != id {
        Err(FrameConstructionError::CanIdMessageTypeMismatch)
    } else {
        Ok(FrameView { id, msg_type: type_of_tag(tag), payload: buf.take(len as int) })
    }
}

/// Reading a tag back gives the message type it was written for.
pub proof fn lemma_tag_round_trip(t: MessageType)
    ensures
        type_of_tag(tag_of(t)) == t,
{
    assert(0u8 & 2u8 == 0) by (bit_vector);
    assert(2u8 & 2u8 == 2) by (bit_vector);
}

/// A payload that fits is accepted, and the frame keeps its length exactly.
pub proof fn lemma_construct_fits(max: nat, id: u32, t: MessageType, data: Seq<u8>)
    requires
        data.len() <= max,
    ensures
        spec_construct(max, id, t, data) is Ok,
        spec_construct(max, id, t, data)->Ok_0.payload.len() == data.len(),
{
}

/// A payload longer than the frame kind allows is refused with `TooMuchData`.
pub proof fn lemma_construct_too_long(max: nat, id: u32, t: MessageType, data: Seq<u8>)
    requires
        data.len() > max,
    ensures
        spec_construct(max, id, t, data) == Err::<FrameView, FrameConstructionError>(
            FrameConstructionError::TooMuchData,
        ),
{
}

/// A standard frame keeps the low 11 bits of the identifier it was given.
pub proof fn lemma_standard_identifier(max: nat, id: u32, data: Seq<u8>)
    requires
        data.len() <= max,
    ensures
        spec_construct(max, id, MessageType::Standard, data)->Ok_0.id == id & 0x7FF,
{
}

/// An extended frame keeps the low 29 bits of the identifier it was given.
pub proof fn lemma_extended_identifier(max: nat, id: u32, data: Seq<u8>)
    requires
        data.len() <= max,
    ensures
        spec_construct(max, id, MessageType::Extended, data)->Ok_0.id == id & 0x1FFF_FFFF,
{
}

/// Two constructions give the same frame exactly when they agree on the tag,
/// on the masked identifier and on the payload.
pub proof fn lemma_construct_same_inputs(
    max: nat,
    id1: u32,
    t1: MessageType,
    d1: Seq<u8>,
    id2: u32,
    t2: MessageType,
    d2: Seq<u8>,
)
    requires
        d1.len() <= max,
        d2.len() <= max,
    ensures
        spec_construct(max, id1, t1, d1) == spec_construct(max, id2, t2, d2) <==> (t1 == t2
            && id1 & mask_of(t1) == id2 & mask_of(t2) && d1 == d2),
{
}

/// Copies `data` into a zeroed buffer of `N` bytes.
fn padded<const N: usize>(data: &[u8]) -> (r: [u8; N])
    requires
        data@.len() <= N,
    ensures
        r@.subrange(0, data@.len() as int) == data@,
        forall|j: int| data@.len() <= j < N ==> r@[j] == 0,
{
    let mut buf: [u8; N] = [0u8; N];
    let mut i: usize = 0;
    while i < data.len()
        invariant
            i <= data@.len() <= N,
            buf@.len() == N,
            forall|j: int| 0 <= j < i ==> buf@[j] == data@[j],
            forall|j: int| data@.len() <= j < N ==> buf@[j] == 0,
        decreases data@.len() - i,
    {
        buf[i] = data[i];
        i = i + 1;
    }
    assert(buf@.subrange(0, data@.len() as int) =~= data@);
    buf
}


/// A classic CAN frame: up to 8 payload bytes in a zero-padded buffer.
#[derive(Debug, Clone, Copy)]
pub struct CanFrame {
    id: u32,
    msg_type: MessageType,
    len: u8,
    data: [u8; 8],
}

impl View for CanFrame {
    type V = FrameView;

    closed spec fn view(&self) -> FrameView {
        FrameView {
            id: self.id,
            msg_type: self.msg_type,
            payload: self.data@.subrange(0, self.len as int),
        }
    }
}

impl CanFrame {
    /// Every byte of the payload buffer, padding included.
    pub closed spec fn storage(&self) -> Seq<u8> {
        self.data@
    }

    /// The payload fits the buffer and the identifier fits the message type.
    pub closed spec fn wf(&self) -> bool {
        &&& self.len <= CAN_MAX_DLC
        &&& self.id == self.id & mask_of(self.msg_type)
    }

    /// Builds a frame; the identifier is masked to the width of `msg_type`
    /// and the payload buffer is zero-padded behind `data`.
    pub fn new(can_id: u32, msg_type: MessageType, data: &[u8]) -> (r: Result<
        CanFrame,
        FrameConstructionError,
    >)
        ensures
            match r {
                Ok(f) => spec_construct(CAN_MAX_DLC as nat, can_id, msg_type, data@) == Ok::<
                    FrameView,
                    FrameConstructionError,
                >(f@) && f.wf() && forall|j: int|
                    data@.len() <= j < CAN_MAX_DLC ==> f.storage()[j] == 0,
                Err(e) => spec_construct(CAN_MAX_DLC as nat, can_id, msg_type, data@) == Err::<
                    FrameView,
                    FrameConstructionError,
                >(e),
            },
    {
        if data.len() > CAN_MAX_DLC {
            Err(FrameConstructionError::TooMuchData)
        } else {
            let frame_data: [u8; 8] = padded(data);
            let id = match msg_type {
                MessageType::Standard => can_id & STANDARD_MASK,
                MessageType::Extended => can_id & EXTENDED_MASK,
            };
            let f = CanFrame { id, msg_type, len: data.len() as u8, data: frame_data };
            proof {
                lemma_mask_twice(can_id, mask_of(msg_type));
            }
            assert(f@.payload =~= data@);
            Ok(f)
        }
    }
    /// Reads a frame from the driver's layout: identifier, tag, length and
    /// payload buffer.
    pub fn from_raw(id: u32, tag: u8, len: u8, buf: &[u8; 8]) -> (r: Result<
        CanFrame,
        FrameConstructionError,
    >)
        ensures
            match r {
                Ok(f) => spec_decode(CAN_MAX_DLC as nat, id, tag, len, buf@) == Ok::<
                    FrameView,
                    FrameConstructionError,
                >(f@) && f.wf() && f.storage() == buf@,
                Err(e) => spec_decode(CAN_MAX_DLC as nat, id, tag, len, buf@) == Err::<
                    FrameView,
                    FrameConstructionError,
                >(e),
            },
    {
        if len as usize > CAN_MAX_DLC {
            return Err(FrameConstructionError::TooMuchData);
        }
        let msg_type = if tag & MESSAGE_EXTENDED != 0 {
            MessageType::Extended
        } else {
            MessageType::Standard
        };
        let mask = match msg_type {
            MessageType::Standard => STANDARD_MASK,
            MessageType::Extended => EXTENDED_MASK,
        };
        if id & mask != id {
            return Err(FrameConstructionError::CanIdMessageTypeMismatch);
        }
        let f = CanFrame { id, msg_type, len, data: *buf };
        assert(f@.payload =~= buf@.take(len as int));
        Ok(f)
    }

    /// The driver tag of the frame's message type.
    pub fn tag(&self) -> (r: u8)
        ensures
            r == tag_of(self@.msg_type),
    {
        match self.msg_type {
            MessageType::Standard => MESSAGE_STANDARD,
            MessageType::Extended => MESSAGE_EXTENDED,
        }
    }

    /// The whole payload buffer, padding included, as the driver takes it.
    pub fn raw_data(&self) -> (r: [u8; 8])
        ensures
            r@ == self.storage(),
    {
        self.data
    }

    /// Writing a frame in the driver's layout and reading it back gives the
    /// same frame.
    pub proof fn lemma_raw_round_trip(f: &CanFrame)
        requires
            f.wf(),
        ensures
            spec_decode(
                CAN_MAX_DLC as nat,
                f@.id,
                tag_of(f@.msg_type),
                f@.payload.len() as u8,
                f.storage(),
            ) == Ok::<FrameView, FrameConstructionError>(f@),
    {
        lemma_tag_round_trip(f@.msg_type);
        assert(f.storage().take(f.len as int) =~= f@.payload);
    }

    /// Whether the frame carries an 11-bit identifier.
    pub fn is_standard_frame(&self) -> (r: bool)
        ensures
            r == (self@.msg_type == MessageType::Standard),
    {
        match self.msg_type {
            MessageType::Standard => true,
            MessageType::Extended => false,
        }
    }

    /// Whether the frame carries a 29-bit identifier.
    pub fn is_extended_frame(&self) -> (r: bool)
        ensures
            r == (self@.msg_type == MessageType::Extended),
    {
        match self.msg_type {
            MessageType::Standard => false,
            MessageType::Extended => true,
        }
    }

    /// The identifier, masked once more to the width of the message type.
    pub fn can_id(&self) -> (r: u32)
        requires
            self.wf(),
        ensures
            r == self@.id,
            r == r & mask_of(self@.msg_type),
    {
        if self.is_standard_frame() {
            self.id & STANDARD_MASK
        } else {
            self.id & EXTENDED_MASK
        }
    }

    /// The number of payload bytes.
    pub fn dlc(&self) -> (r: u8)
        requires
            self.wf(),
        ensures
            r as nat == self@.payload.len(),
            r as nat <= CAN_MAX_DLC,
    {
        self.len
    }

    /// The payload, without padding.
    pub fn data(&self) -> (r: &[u8])
        requires
            self.wf(),
        ensures
            r@ == self@.payload,
    {
        let n = self.len as usize;
        slice_subrange(self.data.as_slice(), 0, n)
    }

    /// The payload for writing in place; its length cannot change.
    pub fn mut_data(&mut self) -> (r: &mut [u8])
        requires
            old(self).wf(),
        ensures
            r@ == old(self)@.payload,
            final(self).wf(),
            final(self)@.id == old(self)@.id,
            final(self)@.msg_type == old(self)@.msg_type,
            final(self)@.payload.len() == old(self)@.payload.len(),
            final(r)@.len() == r@.len() ==> final(self)@.payload == final(r)@,
    {
        let n = self.len as usize;
        let (head, _tail) = self.data.split_at_mut(n);
        head
    }
}

impl Default for CanFrame {
    /// The frame with identifier 0, a standard tag and no payload.
    fn default() -> (r: CanFrame)
        ensures
            r.wf(),
            r@ == (FrameView { id: 0, msg_type: MessageType::Standard, payload: Seq::empty() }),
    {
        let r = CanFrame { id: 0, msg_type: MessageType::Standard, len: 0, data: [0u8; 8] };
        assert(0u32 & STANDARD_MASK == 0) by (bit_vector);
        assert(r@.payload =~= Seq::<u8>::empty());
        r
    }
}

impl CanFrame {
    /// Identifier, length and tag agree, and so do the bytes before the
    /// length; the padding behind them is not compared.
    pub closed spec fn same_frame(&self, o: &CanFrame) -> bool {
        &&& self.id == o.id
        &&& self.len == o.len
        &&& self.msg_type == o.msg_type
        &&& forall|i: int|
            0 <= i < self.len && i < CAN_MAX_DLC ==> #[trigger] self.data@[i] == o.data@[i]
    }

    /// Equality is reflexive, symmetric and transitive, and frames that
    /// agree on identifier, tag and the bytes before their length are equal
    /// whatever their padding holds.
    pub proof fn lemma_eq_laws(a: &CanFrame, b: &CanFrame, c: &CanFrame)
        requires
            a.wf(),
            b.wf(),
            c.wf(),
        ensures
            a.same_frame(a),
            a.same_frame(b) ==> b.same_frame(a),
            a.same_frame(b) && b.same_frame(c) ==> a.same_frame(c),
            a@.id == b@.id && a@.msg_type == b@.msg_type && a@.payload.len() == b@.payload.len()
                && a.storage().take(a@.payload.len() as int) == b.storage().take(
                b@.payload.len() as int,
            ) ==> a.same_frame(b),
    {
        CanFrame::lemma_eq_view(a, a);
        CanFrame::lemma_eq_view(a, b);
        CanFrame::lemma_eq_view(b, a);
        CanFrame::lemma_eq_view(b, c);
        CanFrame::lemma_eq_view(a, c);
        assert(a.storage().take(a@.payload.len() as int) =~= a@.payload);
        assert(b.storage().take(b@.payload.len() as int) =~= b@.payload);
    }

    /// On well-formed frames, equality is equality of what the frames mean.
    pub proof fn lemma_eq_view(a: &CanFrame, b: &CanFrame)
        requires
            a.wf(),
            b.wf(),
        ensures
            a.same_frame(b) <==> a@ == b@,
    {
        if a.same_frame(b) {
            assert(a@.payload =~= b@.payload);
        }
        if a@ == b@ {
            assert(a@.payload.len() == b@.payload.len());
            assert forall|i: int| 0 <= i < a.len && i < CAN_MAX_DLC implies #[trigger] a.data@[i]
                == b.data@[i] by {
                assert(a@.payload[i] == a.data@[i]);
                assert(b@.payload[i] == b.data@[i]);
            }
        }
    }
}

impl PartialEq for CanFrame {
    fn eq(&self, other: &CanFrame) -> (r: bool) {
        if self.id != other.id {
            return false;
        }
        if self.len != other.len {
            return false;
        }
        if self.msg_type != other.msg_type {
            return false;
        }
        let n: usize = if self.len as usize <= CAN_MAX_DLC {
            self.len as usize
        } else {
            CAN_MAX_DLC
        };
        let mut i: usize = 0;
        while i < n
            invariant
                n <= CAN_MAX_DLC,
                n == self.len || self.len > CAN_MAX_DLC,
                i <= n,
                self.data@.len() == CAN_MAX_DLC,
                other.data@.len() == CAN_MAX_DLC,
                forall|j: int| 0 <= j < i ==> self.data@[j] == other.data@[j],
            decreases n - i,
        {
            if self.data[i] != other.data[i] {
                return false;
            }
            i = i + 1;
        }
        true
    }
}

impl vstd::std_specs::cmp::PartialEqSpecImpl for CanFrame {
    open spec fn obeys_eq_spec() -> bool {
        true
    }

    open spec fn eq_spec(&self, o: &CanFrame) -> bool {
        self.same_frame(o)
    }
}

/// A CAN-FD frame: up to 64 payload bytes in a zero-padded buffer.
#[derive(Debug, Clone, Copy)]
pub struct CanFdFrame {
    id: u32,
    msg_type: MessageType,
    len: u8,
    data: [u8; 64],
}

impl View for CanFdFrame {
    type V = FrameView;

    closed spec fn view(&self) -> FrameView {
        FrameView {
            id: self.id,
            msg_type: self.msg_type,
            payload: self.data@.subrange(0, self.len as int),
        }
    }
}

impl CanFdFrame {
    /// Every byte of the payload buffer, padding included.
    pub closed spec fn storage(&self) -> Seq<u8> {
        self.data@
    }

    /// The payload fits the buffer and the identifier fits the message type.
    pub closed spec fn wf(&self) -> bool {
        &&& self.len <= CAN_FD_MAX_DLC
        &&& self.id == self.id & mask_of(self.msg_type)
    }

    /// Builds a frame; the identifier is masked to the width of `msg_type`
    /// and the payload buffer is zero-padded behind `data`.
    pub fn new(can_id: u32, msg_type: MessageType, data: &[u8]) -> (r: Result<
        CanFdFrame,
        FrameConstructionError,
    >)
        ensures
            match r {
                Ok(f) => spec_construct(CAN_FD_MAX_DLC as nat, can_id, msg_type, data@) == Ok::<
                    FrameView,
                    FrameConstructionError,
                >(f@) && f.wf() && forall|j: int|
                    data@.len() <= j < CAN_FD_MAX_DLC ==> f.storage()[j] == 0,
                Err(e) => spec_construct(CAN_FD_MAX_DLC as nat, can_id, msg_type, data@) == Err::<
                    FrameView,
                    FrameConstructionError,
                >(e),
            },
    {
        if data.len() > CAN_FD_MAX_DLC {
            Err(FrameConstructionError::TooMuchData)
        } else {
            let frame_data: [u8; 64] = padded(data);
            let id = match msg_type {
                MessageType::Standard => can_id & STANDARD_MASK,
                MessageType::Extended => can_id & EXTENDED_MASK,
            };
            let f = CanFdFrame { id, msg_type, len: data.len() as u8, data: frame_data };
            proof {
                lemma_mask_twice(can_id, mask_of(msg_type));
            }
            assert(f@.payload =~= data@);
            Ok(f)
        }
    }
    /// Reads a frame from the driver's layout: identifier, tag, length and
    /// payload buffer.
    pub fn from_raw(id: u32, tag: u8, len: u8, buf: &[u8; 64]) -> (r: Result<
        CanFdFrame,
        FrameConstructionError,
    >)
        ensures
            match r {
                Ok(f) => spec_decode(CAN_FD_MAX_DLC as nat, id, tag, len, buf@) == Ok::<
                    FrameView,
                    FrameConstructionError,
                >(f@) && f.wf() && f.storage() == buf@,
                Err(e) => spec_decode(CAN_FD_MAX_DLC as nat, id, tag, len, buf@) == Err::<
                    FrameView,
                    FrameConstructionError,
                >(e),
            },
    {
        if len as usize > CAN_FD_MAX_DLC {
            return Err(FrameConstructionError::TooMuchData);
        }
        let msg_type = if tag & MESSAGE_EXTENDED != 0 {
            MessageType::Extended
        } else {
            MessageType::Standard
        };
        let mask = match msg_type {
            MessageType::Standard => STANDARD_MASK,
            MessageType::Extended => EXTENDED_MASK,
        };
        if id & mask != id {
            return Err(FrameConstructionError::CanIdMessageTypeMismatch);
        }
        let f = CanFdFrame { id, msg_type, len, data: *buf };
        assert(f@.payload =~= buf@.take(len as int));
        Ok(f)
    }

    /// The driver tag of the frame's message type.
    pub fn tag(&self) -> (r: u8)
        ensures
            r == tag_of(self@.msg_type),
    {
        match self.msg_type {
            MessageType::Standard => MESSAGE_STANDARD,
            MessageType::Extended => MESSAGE_EXTENDED,
        }
    }

    /// The whole payload buffer, padding included, as the driver takes it.
    pub fn raw_data(&self) -> (r: [u8; 64])
        ensures
            r@ == self.storage(),
    {
        self.data
    }

    /// Writing a frame in the driver's layout and reading it back gives the
    /// same frame.
    pub proof fn lemma_raw_round_trip(f: &CanFdFrame)
        requires
            f.wf(),
        ensures
            spec_decode(
                CAN_FD_MAX_DLC as nat,
                f@.id,
                tag_of(f@.msg_type),
                f@.payload.len() as u8,
                f.storage(),
            ) == Ok::<FrameView, FrameConstructionError>(f@),
    {
        lemma_tag_round_trip(f@.msg_type);
        assert(f.storage().take(f.len as int) =~= f@.payload);
    }

    /// Whether the frame carries an 11-bit identifier.
    pub fn is_standard_frame(&self) -> (r: bool)
        ensures
            r == (self@.msg_type == MessageType::Standard),
    {
        match self.msg_type {
            MessageType::Standard => true,
            MessageType::Extended => false,
        }
    }

    /// Whether the frame carries a 29-bit identifier.
    pub fn is_extended_frame(&self) -> (r: bool)
        ensures
            r == (self@.msg_type == MessageType::Extended),
    {
        match self.msg_type {
            MessageType::Standard => false,
            MessageType::Extended => true,
        }
    }

    /// The identifier, masked once more to the width of the message type.
    pub fn can_id(&self) -> (r: u32)
        requires
            self.wf(),
        ensures
            r == self@.id,
            r == r & mask_of(self@.msg_type),
    {
        if self.is_standard_frame() {
            self.id & STANDARD_MASK
        } else {
            self.id & EXTENDED_MASK
        }
    }

    /// The number of payload bytes.
    pub fn dlc(&self) -> (r: u8)
        requires
            self.wf(),
        ensures
            r as nat == self@.payload.len(),
            r as nat <= CAN_FD_MAX_DLC,
    {
        self.len
    }

    /// The payload, without padding.
    pub fn data(&self) -> (r: &[u8])
        requires
            self.wf(),
        ensures
            r@ == self@.payload,
    {
        let n = self.len as usize;
        slice_subrange(self.data.as_slice(), 0, n)
    }

    /// The payload for writing in place; its length cannot change.
    pub fn mut_data(&mut self) -> (r: &mut [u8])
        requires
            old(self).wf(),
        ensures
            r@ == old(self)@.payload,
            final(self).wf(),
            final(self)@.id == old(self)@.id,
            final(self)@.msg_type == old(self)@.msg_type,
            final(self)@.payload.len() == old(self)@.payload.len(),
            final(r)@.len() == r@.len() ==> final(self)@.payload == final(r)@,
    {
        let n = self.len as usize;
        let (head, _tail) = self.data.split_at_mut(n);
        head
    }
}

impl Default for CanFdFrame {
    /// The frame with identifier 0, a standard tag and no payload.
    fn default() -> (r: CanFdFrame)
        ensures
            r.wf(),
            r@ == (FrameView { id: 0, msg_type: MessageType::Standard, payload: Seq::empty() }),
    {
        let r = CanFdFrame { id: 0, msg_type: MessageType::Standard, len: 0, data: [0u8; 64] };
        assert(0u32 & STANDARD_MASK == 0) by (bit_vector);
        assert(r@.payload =~= Seq::<u8>::empty());
        r
    }
}

impl CanFdFrame {
    /// Identifier, length and tag agree, and so do the bytes before the
    /// length; the padding behind them is not compared.
    pub closed spec fn same_frame(&self, o: &CanFdFrame) -> bool {
        &&& self.id == o.id
        &&& self.len == o.len
        &&& self.msg_type == o.msg_type
        &&& forall|i: int|
            0 <= i < self.len && i < CAN_FD_MAX_DLC ==> #[trigger] self.data@[i] == o.data@[i]
    }

    /// Equality is reflexive, symmetric and transitive, and frames that
    /// agree on identifier, tag and the bytes before their length are equal
    /// whatever their padding holds.
    pub proof fn lemma_eq_laws(a: &CanFdFrame, b: &CanFdFrame, c: &CanFdFrame)
        requires
            a.wf(),
            b.wf(),
            c.wf(),
        ensures
            a.same_frame(a),
            a.same_frame(b) ==> b.same_frame(a),
            a.same_frame(b) && b.same_frame(c) ==> a.same_frame(c),
            a@.id == b@.id && a@.msg_type == b@.msg_type && a@.payload.len() == b@.payload.len()
                && a.storage().take(a@.payload.len() as int) == b.storage().take(
                b@.payload.len() as int,
            ) ==> a.same_frame(b),
    {
        CanFdFrame::lemma_eq_view(a, a);
        CanFdFrame::lemma_eq_view(a, b);
        CanFdFrame::lemma_eq_view(b, a);
        CanFdFrame::lemma_eq_view(b, c);
        CanFdFrame::lemma_eq_view(a, c);
        assert(a.storage().take(a@.payload.len() as int) =~= a@.payload);
        assert(b.storage().take(b@.payload.len() as int) =~= b@.payload);
    }

    /// On well-formed frames, equality is equality of what the frames mean.
    pub proof fn lemma_eq_view(a: &CanFdFrame, b: &CanFdFrame)
        requires
            a.wf(),
            b.wf(),
        ensures
            a.same_frame(b) <==> a@ == b@,
    {
        if a.same_frame(b) {
            assert(a@.payload =~= b@.payload);
        }
        if a@ == b@ {
            assert(a@.payload.len() == b@.payload.len());
            assert forall|i: int| 0 <= i < a.len && i < CAN_FD_MAX_DLC implies #[trigger] a.data@[i]
                == b.data@[i] by {
                assert(a@.payload[i] == a.data@[i]);
                assert(b@.payload[i] == b.data@[i]);
            }
        }
    }
}

impl PartialEq for CanFdFrame {
    fn eq(&self, other: &CanFdFrame) -> (r: bool) {
        if self.id != other.id {
            return false;
        }
        if self.len != other.len {
            return false;
        }
        if self.msg_type != other.msg_type {
            return false;
        }
        let n: usize = if self.len as usize <= CAN_FD_MAX_DLC {
            self.len as usize
        } else {
            CAN_FD_MAX_DLC
        };
        let mut i: usize = 0;
        while i < n
            invariant
                n <= CAN_FD_MAX_DLC,
                n == self.len || self.len > CAN_FD_MAX_DLC,
                i <= n,
                self.data@.len() == CAN_FD_MAX_DLC,
                other.data@.len() == CAN_FD_MAX_DLC,
                forall|j: int| 0 <= j < i ==> self.data@[j] == other.data@[j],
            decreases n - i,
        {
            if self.data[i] != other.data[i] {
                return false;
            }
            i = i + 1;
        }
        true
    }
}

impl vstd::std_specs::cmp::PartialEqSpecImpl for CanFdFrame {
    open spec fn obeys_eq_spec() -> bool {
        true
    }

    open spec fn eq_spec(&self, o: &CanFdFrame) -> bool {
        self.same_frame(o)
    }
}

} // verus!
