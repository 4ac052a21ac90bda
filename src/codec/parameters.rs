use std::sync::Arc;

use vstd::prelude::*;

use crate::codec::id::Id;
use crate::media::{code_of_type, type_of_code, Type};

verus! {

/// Zero bytes that must follow extra configuration data, so that the native
/// parsers may read a little past its end.
pub const INPUT_BUFFER_PADDING_SIZE: usize = 64;

/// Native code of "no pixel or sample format".
pub const FORMAT_NONE: i32 = -1;

/// How many sample formats the engine defines (`AV_SAMPLE_FMT_NB`); codes
/// of audio formats run from zero below it.
pub const SAMPLE_FORMAT_COUNT: i32 = 12;

/// How many pixel formats the engine defines (`AV_PIX_FMT_NB`) in the
/// version the native layer is built against; codes of pixel formats run
/// from zero below it.
pub const PIXEL_FORMAT_COUNT: i32 = 246;

/// The format that the native code `code` stands for in a stream of kind
/// `kind`: the code itself where it names a sample format of an audio stream
/// or a pixel format of any other stream, and "none" otherwise.
pub open spec fn format_of_code(kind: i32, code: i32) -> i32 {
    let count = if type_of_code(kind) == Type::Audio {
        SAMPLE_FORMAT_COUNT
    } else {
        PIXEL_FORMAT_COUNT
    };
    if 0 <= code < count {
        code
    } else {
        FORMAT_NONE
    }
}

/// Native code of "unknown media kind".
pub const MEDIA_TYPE_UNKNOWN: i32 = -1;

/// The fields of a native codec-configuration block, as plain values.
pub struct Block {
    pub codec_type: i32,
    pub codec_id: u32,
    pub width: i32,
    pub height: i32,
    pub format: i32,
    /// The whole allocation behind the extra configuration data: the data,
    /// then its padding. Empty when no data was ever attached.
    pub extradata: Vec<u8>,
    /// The logical length of the extra configuration data.
    pub extradata_size: i32,
}

/// What a block holds.
pub struct BlockView {
    pub codec_type: i32,
    pub codec_id: u32,
    pub width: i32,
    pub height: i32,
    pub format: i32,
    pub extradata: Seq<u8>,
    pub extradata_size: i32,
}

impl View for Block {
    type V = BlockView;

    open spec fn view(&self) -> BlockView {
        BlockView {
            codec_type: self.codec_type,
            codec_id: self.codec_id,
            width: self.width,
            height: self.height,
            format: self.format,
            extradata: self.extradata@,
            extradata_size: self.extradata_size,
        }
    }
}

/// `alloc` holds `size` bytes of data followed by the padding, all zero.
pub open spec fn is_padded(alloc: Seq<u8>, size: int) -> bool {
    &&& 0 <= size
    &&& alloc.len() == size + INPUT_BUFFER_PADDING_SIZE
    &&& forall|i: int| size <= i < alloc.len() ==> #[trigger] alloc[i] == 0
}

/// `n` zero bytes.
pub open spec fn zeros(n: nat) -> Seq<u8> {
    Seq::new(n, |i: int| 0u8)
}

impl BlockView {
    /// Either no data is attached, or the allocation is the data and its padding.
    pub open spec fn wf(self) -> bool {
        ||| (self.extradata.len() == 0 && self.extradata_size == 0)
        ||| is_padded(self.extradata, self.extradata_size as int)
    }

    /// The extra configuration data without its padding.
    pub open spec fn data(self) -> Seq<u8> {
        self.extradata.take(self.extradata_size as int)
    }

    /// The block after `b` is attached as its extra configuration data.
    pub open spec fn with_extradata(self, b: Seq<u8>) -> BlockView {
        BlockView {
            extradata: b + zeros(INPUT_BUFFER_PADDING_SIZE as nat),
            extradata_size: b.len() as i32,
            ..self
        }
    }

    /// A freshly allocated block: no kind, no codec, no format, no data.
    pub open spec fn empty() -> BlockView {
        BlockView {
            codec_type: MEDIA_TYPE_UNKNOWN,
            codec_id: 0,
            width: 0,
            height: 0,
            format: FORMAT_NONE,
            extradata: Seq::empty(),
            extradata_size: 0,
        }
    }
}

impl Block {
    /// Whether the block may be handed to a handle: no data, or data followed
    /// by its zero padding.
    pub fn is_well_formed(&self) -> (r: bool)
        ensures
            r == self@.wf(),
    {
        if self.extradata.len() == 0 && self.extradata_size == 0 {
            return true;
        }
        if self.extradata_size < 0 {
            return false;
        }
        let size = self.extradata_size as usize;
        assert(size as int == self.extradata_size as int);
        if self.extradata.len() < INPUT_BUFFER_PADDING_SIZE
            || self.extradata.len() - INPUT_BUFFER_PADDING_SIZE != size {
            return false;
        }
        let mut i: usize = size;
        while i < self.extradata.len()
            invariant
                size <= i <= self.extradata@.len(),
                size as int == self.extradata_size as int,
                self.extradata@.len() == size + INPUT_BUFFER_PADDING_SIZE,
                forall|j: int| size <= j < i ==> #[trigger] self.extradata@[j] == 0,
            decreases self.extradata@.len() - i,
        {
            if self.extradata[i] != 0 {
                assert(self.extradata@[i as int] != 0);
                return false;
            }
            i = i + 1;
        }
        true
    }

    /// A deep copy: every field, and a fresh allocation holding the same bytes.
    pub fn copy(&self) -> (r: Block)
        ensures
            r@ == self@,
    {
        let mut extradata: Vec<u8> = Vec::with_capacity(self.extradata.len());
        let mut i: usize = 0;
        while i < self.extradata.len()
            invariant
                i <= self.extradata@.len(),
                extradata@ == self.extradata@.take(i as int),
            decreases self.extradata@.len() - i,
        {
            extradata.push(self.extradata[i]);
            i = i + 1;
            proof {
                assert(self.extradata@.take(i as int) == self.extradata@.take((i - 1) as int).push(
                    self.extradata@[i - 1],
                ));
            }
        }
        proof {
            assert(self.extradata@.take(self.extradata@.len() as int) == self.extradata@);
        }
        Block {
            codec_type: self.codec_type,
            codec_id: self.codec_id,
            width: self.width,
            height: self.height,
            format: self.format,
            extradata,
            extradata_size: self.extradata_size,
        }
    }
}

/// How a handle ended: whether it released its native block.
#[derive(Clone, Copy, Debug, PartialEq, Eq, Structural)]
pub enum Release {
    /// The handle owned the block exclusively and released it.
    Freed,
    /// The block belongs to the holders of the shared-ownership token and was left alone.
    Kept,
}

/// A handle on a codec-configuration block, either owned exclusively or
/// borrowed from whatever owns the block, which the shared-ownership token
/// (an `Arc` of the owner) keeps alive for as long as the handle lives.
pub struct Parameters<O: ?Sized = ()> {
    block: Block,
    owner: Option<Arc<O>>,
}

/// What a handle holds: its block, and whether it owns it.
pub struct ParametersView {
    pub block: BlockView,
    pub owned: bool,
}

impl<O: ?Sized> View for Parameters<O> {
    type V = ParametersView;

    closed spec fn view(&self) -> ParametersView {
        ParametersView { block: self.block@, owned: self.owner is None }
    }
}

/// How a handle with this view ends.
pub open spec fn release_of(v: ParametersView) -> Release {
    if v.owned {
        Release::Freed
    } else {
        Release::Kept
    }
}

impl<O: ?Sized> Parameters<O> {
    pub open spec fn wf(&self) -> bool {
        self@.block.wf()
    }

    /// Takes a block that collaborating code already holds. With a token the
    /// handle borrows the block; without one it owns it.
    pub fn wrap(block: Block, owner: Option<Arc<O>>) -> (r: Parameters<O>)
        requires
            block@.wf(),
        ensures
            r.wf(),
            r@.block == block@,
            r@.owned == (owner is None),
    {
        Parameters { block, owner }
    }

    /// A handle that owns a freshly allocated, empty block.
    pub fn new() -> (r: Parameters<O>)
        ensures
            r.wf(),
            r@.block == BlockView::empty(),
            r@.owned,
    {
        Parameters {
            block: Block {
                codec_type: MEDIA_TYPE_UNKNOWN,
                codec_id: 0,
                width: 0,
                height: 0,
                format: FORMAT_NONE,
                extradata: Vec::new(),
                extradata_size: 0,
            },
            owner: None,
        }
    }

    /// The block's fields.
    pub fn block(&self) -> (r: &Block)
        ensures
            r@ == self@.block,
    {
        &self.block
    }

    /// Same as `codec_type`.
    pub fn medium(&self) -> (r: Type)
        ensures
            r == type_of_code(self@.block.codec_type),
    {
        self.codec_type()
    }

    /// Same as `codec_id`.
    pub fn id(&self) -> (r: Id)
        ensures
            r.code == self@.block.codec_id,
    {
        self.codec_id()
    }

    pub fn width(&self) -> (r: u32)
        ensures
            r == self@.block.width as u32,
    {
        self.block.width as u32
    }

    pub fn set_width(&mut self, value: u32)
        ensures
            final(self)@ == (ParametersView {
                block: BlockView { width: value as i32, ..old(self)@.block },
                ..old(self)@
            }),
    {
        self.block.width = value as i32;
    }

    pub fn height(&self) -> (r: u32)
        ensures
            r == self@.block.height as u32,
    {
        self.block.height as u32
    }

    pub fn set_height(&mut self, value: u32)
        ensures
            final(self)@ == (ParametersView {
                block: BlockView { height: value as i32, ..old(self)@.block },
                ..old(self)@
            }),
    {
        self.block.height = value as i32;
    }

    /// The pixel or sample format, which of the two by the stream's kind;
    /// a code that names no format of that kind reads as `FORMAT_NONE`.
    pub fn format(&self) -> (r: i32)
        ensures
            r == format_of_code(self@.block.codec_type, self@.block.format),
    {
        let count = if self.codec_type() == Type::Audio {
            SAMPLE_FORMAT_COUNT
        } else {
            PIXEL_FORMAT_COUNT
        };
        if 0 <= self.block.format && self.block.format < count {
            self.block.format
        } else {
            FORMAT_NONE
        }
    }

    pub fn set_format(&mut self, format: i32)
        ensures
            final(self)@ == (ParametersView {
                block: BlockView { format, ..old(self)@.block },
                ..old(self)@
            }),
    {
        self.block.format = format;
    }

    pub fn codec_type(&self) -> (r: Type)
        ensures
            r == type_of_code(self@.block.codec_type),
    {
        Type::from_code(self.block.codec_type)
    }

    pub fn set_codec_type(&mut self, codec_type: Type)
        ensures
            final(self)@ == (ParametersView {
                block: BlockView { codec_type: code_of_type(codec_type), ..old(self)@.block },
                ..old(self)@
            }),
    {
        self.block.codec_type = codec_type.code();
    }

    pub fn codec_id(&self) -> (r: Id)
        ensures
            r.code == self@.block.codec_id,
    {
        Id::from_code(self.block.codec_id)
    }

    pub fn set_codec_id(&mut self, codec_id: Id)
        ensures
            final(self)@ == (ParametersView {
                block: BlockView { codec_id: codec_id.code, ..old(self)@.block },
                ..old(self)@
            }),
    {
        self.block.codec_id = codec_id.code;
    }

    /// The extra configuration data, without its padding.
    pub fn extradata(&self) -> (r: &[u8])
        requires
            self.wf(),
        ensures
            r@ == self@.block.data(),
    {
        let size = self.block.extradata_size as usize;
        vstd::slice::slice_subrange(self.block.extradata.as_slice(), 0, size)
    }

    /// Attaches `extradata` as the block's extra configuration data: the block
    /// records its length and takes an allocation holding it followed by the
    /// zero padding. The allocation it held before is released here.
    pub fn set_extradata(&mut self, extradata: Vec<u8>)
        requires
            extradata@.len() + INPUT_BUFFER_PADDING_SIZE <= i32::MAX,
        ensures
            final(self)@ == (ParametersView {
                block: old(self)@.block.with_extradata(extradata@),
                ..old(self)@
            }),
            final(self).wf(),
    {
        let size = extradata.len() as i32;
        let mut padded = extradata;
        let ghost data = padded@;
        let mut i: usize = 0;
        while i < INPUT_BUFFER_PADDING_SIZE
            invariant
                i <= INPUT_BUFFER_PADDING_SIZE,
                padded@ == data + zeros(i as nat),
            decreases INPUT_BUFFER_PADDING_SIZE - i,
        {
            padded.push(0u8);
            i = i + 1;
            proof {
                assert(zeros(i as nat) == zeros((i - 1) as nat).push(0u8));
            }
        }
        self.block.extradata_size = size;
        self.block.extradata = padded;
        proof {
            lemma_padding_is_zero(data);
        }
    }

    /// A handle that owns a fresh block holding a deep copy of this one's
    /// fields and data, whatever this handle's ownership.
    pub fn duplicate(&self) -> (r: Parameters<O>)
        requires
            self.wf(),
        ensures
            r.wf(),
            r@.block == self@.block,
            r@.owned,
    {
        let mut r = Parameters::new();
        r.clone_from(self);
        r
    }

    /// Replaces this handle's fields and data by a deep copy of `source`'s;
    /// the ownership of this handle stays as it was.
    pub fn clone_from(&mut self, source: &Parameters<O>)
        requires
            source.wf(),
        ensures
            final(self)@ == (ParametersView { block: source@.block, ..old(self)@ }),
            final(self).wf(),
    {
        self.block = source.block.copy();
    }

    /// Ends the handle: it releases the block only where it owns it.
    pub fn release(self) -> (r: Release)
        ensures
            r == release_of(self@),
    {
        match self.owner {
            None => Release::Freed,
            Some(_) => Release::Kept,
        }
    }
}

impl<O: ?Sized> Default for Parameters<O> {
    fn default() -> (r: Parameters<O>)
        ensures
            r.wf(),
            r@.block == BlockView::empty(),
            r@.owned,
    {
        Parameters::new()
    }
}

/// The allocation after `b` is attached is `b` followed by zero padding.
proof fn lemma_padding_is_zero(b: Seq<u8>)
    requires
        b.len() + INPUT_BUFFER_PADDING_SIZE <= i32::MAX,
    ensures
        is_padded(b + zeros(INPUT_BUFFER_PADDING_SIZE as nat), b.len() as int),
        (b + zeros(INPUT_BUFFER_PADDING_SIZE as nat)).take(b.len() as int) == b,
{
    let alloc = b + zeros(INPUT_BUFFER_PADDING_SIZE as nat);
    assert forall|i: int| b.len() <= i < alloc.len() implies #[trigger] alloc[i] == 0 by {
        assert(alloc[i] == zeros(INPUT_BUFFER_PADDING_SIZE as nat)[i - b.len()]);
    }
    assert(alloc.take(b.len() as int) =~= b);
}

/// Attaching data and reading it back gives exactly that data, without the
/// padding; and the allocation behind it is the data's length plus the
/// padding, with every padding byte zero.
pub proof fn lemma_extradata_round_trip(v: BlockView, b: Seq<u8>)
    requires
        b.len() + INPUT_BUFFER_PADDING_SIZE <= i32::MAX,
    ensures
        v.with_extradata(b).data() == b,
        v.with_extradata(b).extradata.len() == b.len() + INPUT_BUFFER_PADDING_SIZE,
        forall|i: int|
            b.len() <= i < v.with_extradata(b).extradata.len()
                ==> #[trigger] v.with_extradata(b).extradata[i] == 0,
        v.with_extradata(b).wf(),
{
    lemma_padding_is_zero(b);
}

/// A well-formed block keeps its data and padding as the allocation: the
/// allocation is empty, or its length is the data's plus the padding and
/// every byte past the data is zero.
pub proof fn lemma_allocation_is_padded(v: BlockView)
    requires
        v.wf(),
    ensures
        v.extradata.len() == 0 || v.extradata.len() == v.data().len() + INPUT_BUFFER_PADDING_SIZE,
        forall|i: int| v.data().len() <= i < v.extradata.len() ==> #[trigger] v.extradata[i] == 0,
{
}

/// A duplicate holds what its source holds, is owned exclusively whatever the
/// source's ownership, and so is released exactly once.
pub proof fn lemma_duplicate_round_trip(source: ParametersView, copy: ParametersView)
    requires
        source.block.wf(),
        copy.block == source.block,
        copy.owned,
    ensures
        copy.block.width == source.block.width,
        copy.block.height == source.block.height,
        copy.block.format == source.block.format,
        copy.block.codec_type == source.block.codec_type,
        copy.block.codec_id == source.block.codec_id,
        copy.block.data() == source.block.data(),
        release_of(copy) == Release::Freed,
{
}

/// Attaching new data to a duplicate gives the duplicate exactly that data
/// and keeps its other fields, while the source, which the change does not
/// touch, still holds the data it had.
pub proof fn lemma_duplicate_independent(source: ParametersView, copy: ParametersView, b: Seq<u8>)
    requires
        source.block.wf(),
        copy.block == source.block,
        b.len() + INPUT_BUFFER_PADDING_SIZE <= i32::MAX,
    ensures
        copy.block.with_extradata(b).data() == b,
        copy.block.with_extradata(b).width == source.block.width,
        copy.block.with_extradata(b).height == source.block.height,
        copy.block.with_extradata(b).format == source.block.format,
        source.block.data() == copy.block.data(),
{
    lemma_padding_is_zero(b);
}

/// A handle releases its block once if it owns it, and never if it was given
/// a shared-ownership token; `release` takes the handle by value, so it is
/// called at most once.
pub proof fn lemma_release_once(v: ParametersView)
    ensures
        v.owned ==> release_of(v) == Release::Freed,
        !v.owned ==> release_of(v) == Release::Kept,
{
}

} // verus!
