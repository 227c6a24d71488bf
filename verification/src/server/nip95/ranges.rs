//! Reading a file of several parts from any position.

use crate::event::{hex_text, id_views, Event, EventId, EventView};
use crate::server::nip95::{base64_bytes, content_bytes, file_is_its_parts_in_order, get_bytes, loaded_view, part_of, streamed};
use crate::text::cat;
use vstd::prelude::*;

verus! {

/// A file of several parts.
#[derive(Clone, Debug, PartialEq, Eq)]
pub struct MultipartRangeInit {
    /// The events that hold the parts, in order.
    pub event_ids: Vec<EventId>,
    pub total_size: u64,
    /// The size of every part but the last.
    pub block_size: u64,
}

/// What a reader holds.
enum State {
    Empty,
    AwaitingLoad,
    HaveBytes(Vec<u8>),
}

/// The mathematical model of what a reader holds.
pub enum StateView {
    Empty,
    AwaitingLoad,
    HaveBytes(Seq<u8>),
}

/// A reader of a file of several parts.
pub struct MultipartRange {
    init: MultipartRangeInit,
    offset: u64,
    state: State,
}

/// The mathematical model of a [`MultipartRange`].
pub struct RangeView {
    pub event_ids: Seq<Seq<u8>>,
    pub total_size: u64,
    pub block_size: u64,
    pub offset: u64,
    pub state: StateView,
}

impl View for MultipartRange {
    type V = RangeView;

    closed spec fn view(&self) -> RangeView {
        RangeView {
            event_ids: id_views(self.init.event_ids@),
            total_size: self.init.total_size,
            block_size: self.init.block_size,
            offset: self.offset,
            state: match self.state {
                State::Empty => StateView::Empty,
                State::AwaitingLoad => StateView::AwaitingLoad,
                State::HaveBytes(bytes) => StateView::HaveBytes(bytes@),
            },
        }
    }
}

/// Why a file could not be read.
#[derive(Clone, Debug, PartialEq, Eq)]
pub enum Error {
    /// The database does not hold the event of a part.
    MissingEvent(EventId),
    /// The database failed.
    Database(String),
    /// The event of a part holds no bytes.
    Content(String),
}

/// The mathematical model of an [`Error`].
pub enum ErrorView {
    MissingEvent(Seq<u8>),
    Database(Seq<char>),
    Content(Seq<char>),
}

impl View for Error {
    type V = ErrorView;

    open spec fn view(&self) -> ErrorView {
        match self {
            Error::MissingEvent(id) => ErrorView::MissingEvent(id@),
            Error::Database(error) => ErrorView::Database(error@),
            Error::Content(error) => ErrorView::Content(error@),
        }
    }
}

/// What an error says.
pub open spec fn error_text(error: ErrorView) -> Seq<char> {
    match error {
        ErrorView::MissingEvent(id) => "missing event ID "@ + hex_text(id),
        ErrorView::Database(error) => error,
        ErrorView::Content(error) => error,
    }
}

impl Error {
    /// What the error says.
    pub fn message(&self) -> (text: String)
        ensures
            text@ == error_text(self@),
    {
        match self {
            Error::MissingEvent(id) => cat("missing event ID ", &id.to_hex()),
            Error::Database(error) => error.clone(),
            Error::Content(error) => error.clone(),
        }
    }
}

/// What comes of an attempt to read.
#[derive(Clone, Debug, PartialEq, Eq)]
pub enum ReadStep {
    /// The file ends here.
    End,
    /// The event of a part has to be loaded.
    Load(EventId),
    /// The event of a part is being loaded.
    Wait,
    Bytes(Vec<u8>),
}

/// The mathematical model of a [`ReadStep`].
pub enum ReadStepView {
    End,
    Load(Seq<u8>),
    Wait,
    Bytes(Seq<u8>),
}

impl View for ReadStep {
    type V = ReadStepView;

    open spec fn view(&self) -> ReadStepView {
        match self {
            ReadStep::End => ReadStepView::End,
            ReadStep::Load(id) => ReadStepView::Load(id@),
            ReadStep::Wait => ReadStepView::Wait,
            ReadStep::Bytes(bytes) => ReadStepView::Bytes(bytes@),
        }
    }
}

impl RangeView {
    /// The part that the current position is in.
    pub open spec fn block(self) -> int {
        self.offset as int / self.block_size as int
    }

    /// The current position in its part.
    pub open spec fn offset_in_block(self) -> int {
        self.offset as int % self.block_size as int
    }

    /// A part can be found for the current position, and a part that is there
    /// reaches that far and no further than a position can.
    pub open spec fn readable(self) -> bool {
        &&& self.block_size > 0
        &&& match self.state {
            StateView::Empty => self.offset < self.total_size ==> self.block()
                < self.event_ids.len(),
            StateView::AwaitingLoad => self.block() < self.event_ids.len(),
            StateView::HaveBytes(bytes) => {
                &&& self.offset_in_block() <= bytes.len()
                &&& self.offset - self.offset_in_block() + bytes.len() <= u64::MAX
            },
        }
    }

    /// This reader with another state.
    pub open spec fn with_state(self, state: StateView) -> RangeView {
        RangeView { state, ..self }
    }
}

/// How many bytes a part gives to a buffer.
pub open spec fn taken(bytes: Seq<u8>, from: int, remaining: nat) -> nat {
    if bytes.len() - from > remaining {
        remaining
    } else {
        (bytes.len() - from) as nat
    }
}

/// An attempt to read into a buffer with room for `remaining` bytes.
pub open spec fn poll(range: RangeView, remaining: nat) -> (RangeView, ReadStepView) {
    match range.state {
        StateView::Empty => if range.offset >= range.total_size {
            (range, ReadStepView::End)
        } else {
            (
                range.with_state(StateView::AwaitingLoad),
                ReadStepView::Load(range.event_ids[range.block()]),
            )
        },
        StateView::AwaitingLoad => (range, ReadStepView::Wait),
        StateView::HaveBytes(bytes) => {
            let from = range.offset_in_block();
            let count = taken(bytes, from, remaining);
            let state = if bytes.len() - from > remaining {
                range.state
            } else {
                StateView::Empty
            };
            (
                RangeView { offset: (range.offset + count) as u64, state, ..range },
                ReadStepView::Bytes(bytes.subrange(from, from + count)),
            )
        },
    }
}

/// The arrival of what the database replied about the event of a part.
pub open spec fn load(range: RangeView, loaded: Result<Option<EventView>, Seq<char>>) -> (
    RangeView,
    Result<(), ErrorView>,
) {
    match loaded {
        Err(error) => (range, Err(ErrorView::Database(error))),
        Ok(None) => (range, Err(ErrorView::MissingEvent(range.event_ids[range.block()]))),
        Ok(Some(event)) => match content_bytes(base64_bytes(event.content)) {
            Err(error) => (range, Err(ErrorView::Content(error))),
            Ok(bytes) => (range.with_state(StateView::HaveBytes(bytes)), Ok(())),
        },
    }
}

/// What came of loading a part, by its view.
pub open spec fn load_view(result: Result<(), Error>) -> Result<(), ErrorView> {
    match result {
        Ok(()) => Ok(()),
        Err(error) => Err(error@),
    }
}

/// A stretch of bytes.
fn copy_range(bytes: &Vec<u8>, from: usize, count: usize) -> (copy: Vec<u8>)
    requires
        from + count <= bytes@.len(),
    ensures
        copy@ == bytes@.subrange(from as int, from + count),
{
    let mut copy: Vec<u8> = Vec::new();
    let mut i: usize = 0;
    while i < count
        invariant
            i <= count,
            from + count <= bytes.len(),
            copy@ == bytes@.subrange(from as int, from + i),
        decreases count - i,
    {
        copy.push(bytes[from + i]);
        i = i + 1;
        proof {
            assert(copy@ =~= bytes@.subrange(from as int, from + i));
        }
    }
    copy
}

impl MultipartRange {
    /// A reader at the start of a file.
    pub fn new(init: MultipartRangeInit) -> (range: MultipartRange)
        ensures
            range@ == (RangeView {
                event_ids: id_views(init.event_ids@),
                total_size: init.total_size,
                block_size: init.block_size,
                offset: 0,
                state: StateView::Empty,
            }),
    {
        MultipartRange { init, offset: 0, state: State::Empty }
    }

    /// Whether [`MultipartRange::poll_read`] and [`MultipartRange::loaded`] can
    /// be called.
    pub fn is_readable(&self) -> (readable: bool)
        ensures
            readable == self@.readable(),
    {
        if self.init.block_size == 0 {
            return false;
        }
        match &self.state {
            State::Empty => self.offset >= self.init.total_size || self.offset
                / self.init.block_size < self.init.event_ids.len() as u64,
            State::AwaitingLoad => self.offset / self.init.block_size
                < self.init.event_ids.len() as u64,
            State::HaveBytes(bytes) => {
                let in_block = self.offset_in_block();
                proof {
                    vstd::arithmetic::div_mod::lemma_mod_decreases(
                        self.offset as nat,
                        self.init.block_size as nat,
                    );
                }
                in_block <= bytes.len() as u64 && bytes.len() as u64 <= u64::MAX - (self.offset
                    - in_block)
            },
        }
    }

    /// The event of the part that the current position is in.
    fn block_to_load(&self) -> (id: EventId)
        requires
            self@.block_size > 0,
            self@.block() < self@.event_ids.len(),
        ensures
            id@ == self@.event_ids[self@.block()],
    {
        proof {
            assert(self@.event_ids.len() == self.init.event_ids.len());
        }
        let index = (self.offset / self.init.block_size) as usize;
        self.init.event_ids[index]
    }

    /// The current position in its part.
    fn offset_in_block(&self) -> (offset: u64)
        requires
            self@.block_size > 0,
        ensures
            offset == self@.offset_in_block(),
    {
        self.offset % self.init.block_size
    }

    /// Tries to read into a buffer with room for `remaining` bytes.
    pub fn poll_read(&mut self, remaining: usize) -> (step: ReadStep)
        requires
            old(self)@.readable(),
        ensures
            (final(self)@, step@) == poll(old(self)@, remaining as nat),
            step is Bytes <==> old(self)@.state is HaveBytes,
            step is Bytes ==> final(self)@.offset == old(self)@.offset + step->Bytes_0@.len(),
            step is Bytes ==> step->Bytes_0@.len() <= remaining,
            step is Load <==> old(self)@.state is Empty && old(self)@.offset
                < old(self)@.total_size,
            step is End <==> old(self)@.state is Empty && old(self)@.offset
                >= old(self)@.total_size,
    {
        let block_offset = self.offset_in_block();
        match &self.state {
            State::Empty => {
                if self.offset >= self.init.total_size {
                    return ReadStep::End;
                }
                let id = self.block_to_load();
                self.state = State::AwaitingLoad;
                ReadStep::Load(id)
            },
            State::AwaitingLoad => ReadStep::Wait,
            State::HaveBytes(bytes) => {
                let from = block_offset as usize;
                let rest: usize = bytes.len() - from;
                let finished = rest <= remaining;
                let count: usize = if finished {
                    rest
                } else {
                    remaining
                };
                let copy = copy_range(bytes, from, count);
                self.offset = self.offset + count as u64;
                if finished {
                    self.state = State::Empty;
                }
                ReadStep::Bytes(copy)
            },
        }
    }

    /// Takes what the database replied about the event that was to be loaded.
    pub fn loaded(&mut self, loaded: Result<Option<Event>, String>) -> (result: Result<(), Error>)
        requires
            old(self)@.readable(),
            old(self)@.state is AwaitingLoad,
        ensures
            (final(self)@, load_view(result)) == load(old(self)@, loaded_view(loaded)),
            result is Ok <==> loaded is Ok && loaded->Ok_0 is Some && base64_bytes(
                loaded->Ok_0->0.content@,
            ) is Ok,
            result is Ok ==> final(self)@.state == StateView::HaveBytes(
                base64_bytes(loaded->Ok_0->0.content@)->Ok_0,
            ),
            result is Err ==> final(self)@ == old(self)@,
    {
        match loaded {
            Err(error) => Err(Error::Database(error)),
            Ok(None) => Err(Error::MissingEvent(self.block_to_load())),
            Ok(Some(event)) => match get_bytes(&event) {
                Err(error) => Err(Error::Content(error)),
                Ok(bytes) => {
                    self.state = State::HaveBytes(bytes);
                    Ok(())
                },
            },
        }
    }

    /// Goes to a position. What was loaded is dropped.
    pub fn start_seek(&mut self, position: u64)
        ensures
            final(self)@ == (RangeView {
                offset: position,
                state: StateView::Empty,
                ..old(self)@
            }),
    {
        self.state = State::Empty;
        self.offset = position;
    }

    /// The size of the file.
    pub fn byte_size(&self) -> (size: u64)
        ensures
            size == self@.total_size,
    {
        self.init.total_size
    }
}

/// The parts of a file that was cut into blocks: every part but the last is as
/// large as a block, and the last is neither empty nor larger.
pub open spec fn cut(parts: Seq<Seq<u8>>, block_size: int) -> bool {
    &&& parts.len() > 0
    &&& forall|i: int| 0 <= i < parts.len() - 1 ==> (#[trigger] parts[i]).len() == block_size
    &&& 0 < parts.last().len() <= block_size
}

/// A reader of the file that these are the parts of.
pub open spec fn reads(range: RangeView, parts: Seq<Seq<u8>>) -> bool {
    &&& cut(parts, range.block_size as int)
    &&& range.event_ids.len() == parts.len()
    &&& range.total_size == parts.flatten().len()
    &&& match range.state {
        StateView::Empty => true,
        StateView::AwaitingLoad => range.offset < range.total_size,
        StateView::HaveBytes(bytes) => range.offset < range.total_size && bytes
            == parts[range.block()],
    }
}

/// Every position is in exactly one part: it lies behind the blocks before that
/// part by its offset in the part, and before the next one. A position where a
/// block starts belongs to that block.
pub proof fn position_is_in_one_part(range: RangeView)
    requires
        range.block_size > 0,
    ensures
        0 <= range.block(),
        0 <= range.offset_in_block() < range.block_size,
        range.block() * range.block_size + range.offset_in_block() == range.offset,
        range.block() * range.block_size <= range.offset < (range.block() + 1) * range.block_size,
        forall|i: int|
            #![trigger i * range.block_size]
            i * range.block_size <= range.offset < (i + 1) * range.block_size ==> i
                == range.block(),
{
    let size = range.block_size as int;
    let offset = range.offset as int;
    let block = range.block();
    vstd::arithmetic::div_mod::lemma_fundamental_div_mod(offset, size);
    vstd::arithmetic::mul::lemma_mul_is_commutative(size, block);
    vstd::arithmetic::div_mod::lemma_div_pos_is_pos(offset, size);
    assert((block + 1) * size == block * size + size) by (nonlinear_arith);
    assert forall|i: int|
        #![trigger i * range.block_size]
        i * range.block_size <= range.offset < (i + 1) * range.block_size implies i
        == block by {
        assert(i == block) by (nonlinear_arith)
            requires
                size > 0,
                i * size <= offset < (i + 1) * size,
                block * size <= offset < (block + 1) * size,
        ;
    }
}

/// Where a reader needs a part, it asks for the one that its position is in.
pub proof fn the_part_at_the_position_is_loaded(range: RangeView, remaining: nat, i: int)
    requires
        range.block_size > 0,
        range.state is Empty,
        range.offset < range.total_size,
        i * range.block_size <= range.offset < (i + 1) * range.block_size,
    ensures
        poll(range, remaining) == (
            range.with_state(StateView::AwaitingLoad),
            ReadStepView::Load(range.event_ids[i]),
        ),
{
    position_is_in_one_part(range);
}

/// Where a part stands in its file.
proof fn part_in_file(parts: Seq<Seq<u8>>, block_size: int, k: int)
    requires
        cut(parts, block_size),
        0 <= k < parts.len(),
    ensures
        0 <= k * block_size,
        k * block_size + parts[k].len() <= parts.flatten().len(),
        k == parts.len() - 1 ==> k * block_size + parts[k].len() == parts.flatten().len(),
        parts.flatten().subrange(k * block_size, k * block_size + parts[k].len()) == parts[k],
    decreases parts.len(),
{
    let file = parts.flatten();
    let rest = parts.drop_first();
    assert(file == parts[0] + rest.flatten());
    if k == 0 {
        assert(k * block_size == 0) by (nonlinear_arith)
            requires
                k == 0,
        ;
        if parts.len() == 1 {
            assert(rest.flatten() =~= Seq::<u8>::empty());
        }
        assert(file.subrange(0, parts[0].len() as int) =~= parts[0]);
    } else {
        assert forall|i: int| 0 <= i < rest.len() - 1 implies (#[trigger] rest[i]).len()
            == block_size by {
            assert(rest[i] == parts[i + 1]);
        }
        assert(rest.last() == parts.last());
        part_in_file(rest, block_size, k - 1);
        assert(rest[k - 1] == parts[k]);
        assert(parts[0].len() == block_size);
        assert(k * block_size == block_size + (k - 1) * block_size) by (nonlinear_arith);
        let len = parts[k].len() as int;
        let at = (k - 1) * block_size;
        assert(file.subrange(k * block_size, k * block_size + len) =~= rest.flatten().subrange(
            at,
            at + len,
        ));
    }
}

/// A position in a file lies in one of its parts.
proof fn position_in_file(parts: Seq<Seq<u8>>, block_size: int, position: int)
    requires
        cut(parts, block_size),
        0 <= position < parts.flatten().len(),
    ensures
        ({
            let k = position / block_size;
            let j = position % block_size;
            &&& 0 <= k < parts.len()
            &&& 0 <= j < parts[k].len()
            &&& position == k * block_size + j
            &&& position - j + parts[k].len() <= parts.flatten().len()
            &&& forall|count: int|
                0 <= count <= parts[k].len() - j ==> #[trigger] parts[k].subrange(j, j + count)
                    == parts.flatten().subrange(position, position + count)
        }),
{
    let k = position / block_size;
    let j = position % block_size;
    let last = parts.len() - 1;
    vstd::arithmetic::div_mod::lemma_fundamental_div_mod(position, block_size);
    vstd::arithmetic::mul::lemma_mul_is_commutative(block_size, k);
    vstd::arithmetic::div_mod::lemma_div_pos_is_pos(position, block_size);
    part_in_file(parts, block_size, last);
    if k > last {
        assert(k * block_size >= last * block_size + block_size) by (nonlinear_arith)
            requires
                k >= last + 1,
                block_size > 0,
        ;
        assert(false);
    }
    part_in_file(parts, block_size, k);
    if k < last {
        assert(parts[k].len() == block_size);
    }
    let file = parts.flatten();
    assert forall|count: int| 0 <= count <= parts[k].len() - j implies #[trigger] parts[k].subrange(
        j,
        j + count,
    ) == file.subrange(position, position + count) by {
        let whole = file.subrange(k * block_size, k * block_size + parts[k].len());
        assert(whole.subrange(j, j + count) =~= file.subrange(position, position + count));
    }
}

/// A reader never loses its place: each part that it asks for is the one that
/// its position is in, and each stretch of bytes that it gives is the one that
/// stands there in the file. Only at the end of the file does it give nothing.
pub proof fn each_read_continues_the_file(
    range: RangeView,
    parts: Seq<Seq<u8>>,
    remaining: nat,
    event: EventView,
)
    requires
        reads(range, parts),
    ensures
        range.readable(),
        range.state is Empty && range.offset >= range.total_size ==> poll(range, remaining)
            == (range, ReadStepView::End),
        range.state is Empty && range.offset < range.total_size ==> {
            let (waiting, step) = poll(range, remaining);
            &&& step == ReadStepView::Load(range.event_ids[range.block()])
            &&& reads(waiting, parts)
            &&& waiting.readable()
            &&& base64_bytes(event.content) == Ok::<Seq<u8>, Seq<char>>(
                parts[range.block()],
            ) ==> {
                let (full, result) = load(waiting, Ok(Some(event)));
                &&& result is Ok
                &&& full == range.with_state(StateView::HaveBytes(parts[range.block()]))
                &&& reads(full, parts)
            }
        },
        range.state is HaveBytes ==> {
            let (next, step) = poll(range, remaining);
            &&& reads(next, parts)
            &&& range.offset <= next.offset <= range.total_size
            &&& step == ReadStepView::Bytes(
                parts.flatten().subrange(range.offset as int, next.offset as int),
            )
            &&& remaining > 0 ==> next.offset > range.offset
            &&& next.offset - range.offset <= remaining
        },
{
    if range.offset < range.total_size {
        position_in_file(parts, range.block_size as int, range.offset as int);
    }
    if range.state is HaveBytes {
        let bytes = parts[range.block()];
        let from = range.offset_in_block();
        let count = taken(bytes, from, remaining);
        let (next, step) = poll(range, remaining);
        assert(bytes.subrange(from, from + count) == parts.flatten().subrange(
            range.offset as int,
            range.offset + count,
        ));
        if bytes.len() - from > remaining {
            same_block(range.offset as int, count as int, range.block_size as int);
        }
    }
}

/// A step that does not reach the end of a block stays in it.
proof fn same_block(position: int, count: int, block_size: int)
    requires
        0 <= position,
        0 <= count,
        block_size > 0,
        position % block_size + count < block_size,
    ensures
        (position + count) / block_size == position / block_size,
{
    vstd::arithmetic::div_mod::lemma_fundamental_div_mod(position, block_size);
    vstd::arithmetic::mul::lemma_mul_is_commutative(block_size, position / block_size);
    vstd::arithmetic::div_mod::lemma_fundamental_div_mod_converse(
        position + count,
        block_size,
        position / block_size,
        position % block_size + count,
    );
}

/// All that a reader gives, where `room` is how much fits in the buffer at a
/// position and `events` is what the database holds. A read that brings
/// nothing is the end.
pub open spec fn read_on(
    range: RangeView,
    room: spec_fn(u64) -> nat,
    events: spec_fn(Seq<u8>) -> EventView,
) -> Seq<u8>
    decreases
            u64::MAX - range.offset,
            if range.state is Empty {
                1int
            } else {
                0int
            },
{
    let (next, step) = poll(range, room(range.offset));
    match step {
        ReadStepView::Load(id) => {
            let (full, result) = load(next, Ok(Some(events(id))));
            if result is Ok && range.state is Empty {
                read_on(full, room, events)
            } else {
                Seq::empty()
            }
        },
        ReadStepView::Bytes(bytes) => if next.offset > range.offset {
            bytes + read_on(next, room, events)
        } else {
            bytes
        },
        _ => Seq::empty(),
    }
}

/// Reading on from any position gives the rest of the file, whatever the sizes
/// of the buffers that it is read into.
pub proof fn reading_gives_the_file(
    range: RangeView,
    parts: Seq<Seq<u8>>,
    room: spec_fn(u64) -> nat,
    events: spec_fn(Seq<u8>) -> EventView,
)
    requires
        reads(range, parts),
        !(range.state is AwaitingLoad),
        range.offset <= range.total_size,
        forall|position: u64| #[trigger] room(position) > 0,
        forall|i: int|
            0 <= i < parts.len() ==> base64_bytes(
                events(#[trigger] range.event_ids[i]).content,
            ) == Ok::<Seq<u8>, Seq<char>>(parts[i]),
    ensures
        read_on(range, room, events) == parts.flatten().skip(range.offset as int),
    decreases
            u64::MAX - range.offset,
            if range.state is Empty {
                1int
            } else {
                0int
            },
{
    let file = parts.flatten();
    let remaining = room(range.offset);
    if range.offset < range.total_size {
        position_in_file(parts, range.block_size as int, range.offset as int);
    }
    each_read_continues_the_file(range, parts, remaining, events(range.event_ids[range.block()]));
    let (next, step) = poll(range, remaining);
    if range.state is Empty {
        if range.offset >= range.total_size {
            assert(read_on(range, room, events) =~= file.skip(range.offset as int));
        } else {
            let (full, result) = load(next, Ok(Some(events(range.event_ids[range.block()]))));
            reading_gives_the_file(full, parts, room, events);
        }
    } else {
        reading_gives_the_file(next, parts, room, events);
        let here = file.subrange(range.offset as int, next.offset as int);
        assert(here + file.skip(next.offset as int) =~= file.skip(range.offset as int));
    }
}

/// Every range of a file can be read: going to a position and reading on gives
/// the bytes that stand there.
pub proof fn any_range_can_be_read(
    range: RangeView,
    parts: Seq<Seq<u8>>,
    room: spec_fn(u64) -> nat,
    events: spec_fn(Seq<u8>) -> EventView,
    from: u64,
    to: u64,
)
    requires
        reads(range, parts),
        from <= to <= range.total_size,
        forall|position: u64| #[trigger] room(position) > 0,
        forall|i: int|
            0 <= i < parts.len() ==> base64_bytes(
                events(#[trigger] range.event_ids[i]).content,
            ) == Ok::<Seq<u8>, Seq<char>>(parts[i]),
    ensures
        ({
            let there = RangeView { offset: from, state: StateView::Empty, ..range };
            &&& reads(there, parts)
            &&& read_on(there, room, events).take(to - from) == parts.flatten().subrange(
                from as int,
                to as int,
            )
        }),
{
    let there = RangeView { offset: from, state: StateView::Empty, ..range };
    reading_gives_the_file(there, parts, room, events);
    assert(parts.flatten().skip(from as int).take(to - from) =~= parts.flatten().subrange(
        from as int,
        to as int,
    ));
}

/// Reading a file from its start gives what sending it gives.
pub proof fn reading_gives_what_is_sent(
    range: RangeView,
    parts: Seq<Seq<u8>>,
    room: spec_fn(u64) -> nat,
    events: spec_fn(Seq<u8>) -> EventView,
)
    requires
        reads(range, parts),
        range.state is Empty,
        range.offset == 0,
        forall|position: u64| #[trigger] room(position) > 0,
        forall|i: int|
            0 <= i < parts.len() ==> base64_bytes(
                events(#[trigger] range.event_ids[i]).content,
            ) == Ok::<Seq<u8>, Seq<char>>(parts[i]),
    ensures
        ({
            let load = |id: Seq<u8>| Ok::<Option<EventView>, Seq<char>>(Some(events(id)));
            &&& streamed(range.event_ids, load).1 is None
            &&& read_on(range, room, events) == streamed(range.event_ids, load).0.flatten()
        }),
{
    let load = |id: Seq<u8>| Ok::<Option<EventView>, Seq<char>>(Some(events(id)));
    reading_gives_the_file(range, parts, room, events);
    assert(parts.flatten().skip(0) =~= parts.flatten());
    assert forall|i: int| 0 <= i < range.event_ids.len() implies part_of(
        #[trigger] range.event_ids[i],
        load(range.event_ids[i]),
    ) == Ok::<Seq<u8>, Seq<char>>(parts[i]) by {}
    file_is_its_parts_in_order(range.event_ids, load, parts);
}

/// A read takes what fits of what is there, from the position in its part on,
/// and goes forward by as much. When it took the rest of the part, the part is
/// dropped; nothing else changes.
pub proof fn a_read_takes_what_fits(range: RangeView, bytes: Seq<u8>, remaining: nat)
    requires
        range.readable(),
        range.state == StateView::HaveBytes(bytes),
    ensures
        ({
            let from = range.offset as int % range.block_size as int;
            let rest = bytes.skip(from);
            let (next, step) = poll(range, remaining);
            &&& next.event_ids == range.event_ids
            &&& next.total_size == range.total_size
            &&& next.block_size == range.block_size
            &&& rest.len() <= remaining ==> {
                &&& step == ReadStepView::Bytes(rest)
                &&& next.offset == range.offset + rest.len()
                &&& next.state is Empty
            }
            &&& rest.len() > remaining ==> {
                &&& step == ReadStepView::Bytes(rest.take(remaining as int))
                &&& next.offset == range.offset + remaining
                &&& next.state == range.state
            }
        }),
{
    let from = range.offset as int % range.block_size as int;
    vstd::arithmetic::div_mod::lemma_mod_bound(range.offset as int, range.block_size as int);
    let rest = bytes.skip(from);
    if rest.len() <= remaining {
        assert(bytes.subrange(from, bytes.len() as int) =~= rest);
    } else {
        assert(bytes.subrange(from, from + remaining) =~= rest.take(remaining as int));
    }
}

/// Without a part a reader is at the end, or asks for the part that its
/// position is in and waits for it; nothing else changes.
pub proof fn a_reader_without_a_part(range: RangeView, remaining: nat)
    ensures
        range.state is Empty && range.offset >= range.total_size ==> poll(range, remaining) == (
            range,
            ReadStepView::End,
        ),
        range.state is Empty && range.offset < range.total_size ==> poll(range, remaining) == (
            RangeView { state: StateView::AwaitingLoad, ..range },
            ReadStepView::Load(range.event_ids[range.offset as int / range.block_size as int]),
        ),
        range.state is AwaitingLoad ==> poll(range, remaining) == (range, ReadStepView::Wait),
{
}

/// A part that arrives is kept whole, as what its content decodes to; one that
/// does not changes nothing and is told.
pub proof fn a_part_arrives_whole(range: RangeView, event: EventView, error: Seq<char>)
    ensures
        base64_bytes(event.content) is Ok ==> load(range, Ok(Some(event))) == (
            RangeView {
                state: StateView::HaveBytes(base64_bytes(event.content)->Ok_0),
                ..range
            },
            Ok::<(), ErrorView>(()),
        ),
        base64_bytes(event.content) is Err ==> load(range, Ok(Some(event))) == (
            range,
            Err::<(), ErrorView>(
                ErrorView::Content(
                    "Error decoding base64 content: "@ + base64_bytes(event.content)->Err_0,
                ),
            ),
        ),
        load(range, Ok(None)) == (
            range,
            Err::<(), ErrorView>(
                ErrorView::MissingEvent(
                    range.event_ids[range.offset as int / range.block_size as int],
                ),
            ),
        ),
        load(range, Err(error)) == (range, Err::<(), ErrorView>(ErrorView::Database(error))),
{
}

/// A file can be read exactly where there are blocks, a part for the position
/// where one is needed, and a part that is there reaches that far.
pub proof fn what_can_be_read(range: RangeView)
    ensures
        ({
            let block = range.offset as int / range.block_size as int;
            let from = range.offset as int % range.block_size as int;
            &&& range.block_size == 0 ==> !range.readable()
            &&& range.block_size > 0 && range.state is Empty ==> (range.readable() <==> range.offset
                >= range.total_size || block < range.event_ids.len())
            &&& range.block_size > 0 && range.state is AwaitingLoad ==> (range.readable() <==> block
                < range.event_ids.len())
            &&& range.block_size > 0 && range.state is HaveBytes ==> (range.readable() <==> from
                <= range.state->HaveBytes_0.len() && range.offset - from
                + range.state->HaveBytes_0.len() <= u64::MAX)
        }),
{
}

/// What went wrong is told: the missing event by its identifier, anything else
/// as it was said.
pub proof fn errors_say_what_went_wrong(id: Seq<u8>, error: Seq<char>)
    ensures
        error_text(ErrorView::MissingEvent(id)) == "missing event ID "@ + hex_text(id),
        error_text(ErrorView::Database(error)) == error,
        error_text(ErrorView::Content(error)) == error,
{
}

/// The models of errors and steps hold all of it.
pub proof fn read_steps_are_modelled_whole(
    id: EventId,
    text: String,
    bytes: Vec<u8>,
    result: Result<(), Error>,
)
    ensures
        Error::MissingEvent(id)@ == ErrorView::MissingEvent(id.bytes@),
        Error::Database(text)@ == ErrorView::Database(text@),
        Error::Content(text)@ == ErrorView::Content(text@),
        ReadStep::End@ is End,
        ReadStep::Wait@ is Wait,
        ReadStep::Load(id)@ == ReadStepView::Load(id.bytes@),
        ReadStep::Bytes(bytes)@ == ReadStepView::Bytes(bytes@),
        result is Ok <==> load_view(result) is Ok,
        result is Err ==> load_view(result)->Err_0 == result->Err_0@,
{
}

/// The model of a reader holds all of it.
proof fn a_reader_is_modelled_whole(range: MultipartRange)
    ensures
        range@.event_ids == id_views(range.init.event_ids@),
        range@.total_size == range.init.total_size,
        range@.block_size == range.init.block_size,
        range@.offset == range.offset,
        range.state is Empty <==> range@.state is Empty,
        range.state is AwaitingLoad <==> range@.state is AwaitingLoad,
        range.state is HaveBytes ==> range@.state == StateView::HaveBytes(
            range.state->HaveBytes_0@,
        ),
{
}

} // verus!
