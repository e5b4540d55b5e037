use vstd::prelude::*;

verus! {

/// A width and a height, in pixels.
#[derive(Clone, Copy, Debug, PartialEq, Eq, Structural)]
pub struct Size {
    pub width: u32,
    pub height: u32,
}

impl Size {
    pub fn new(width: u32, height: u32) -> (r: Size)
        ensures
            r == (Size { width, height }),
    {
        Size { width, height }
    }
}

/// Why an image could not be loaded.
#[derive(Clone, Copy, Debug, PartialEq, Eq, Structural)]
pub enum Error {
    /// The image has no pixels: its width or its height is zero.
    Empty,
    /// The pixel data does not hold four bytes for every pixel.
    Invalid,
}

/// Decoded RGBA pixels held in host memory.
#[derive(Clone, Debug)]
pub struct Image {
    pub width: u32,
    pub height: u32,
    pub pixels: Vec<u8>,
}

impl View for Image {
    type V = (u32, u32, Seq<u8>);

    open spec fn view(&self) -> (u32, u32, Seq<u8>) {
        (self.width, self.height, self.pixels@)
    }
}

impl Image {
    /// The width and the height of the image.
    pub fn dimensions(&self) -> (r: (u32, u32))
        ensures
            r == (self.width, self.height),
    {
        (self.width, self.height)
    }
}

/// A handle to an image: its identity and its raw RGBA pixel data.
#[derive(Clone, Debug)]
pub struct Handle {
    pub id: u64,
    pub width: u32,
    pub height: u32,
    pub pixels: Vec<u8>,
}

impl Handle {
    /// The identity of the image; it stays the same for the life of the handle.
    pub fn id(&self) -> (r: u64)
        ensures
            r == self.id,
    {
        self.id
    }
}

/// A slot in the texture atlas.
#[derive(Clone, Copy, Debug, PartialEq, Eq, Structural)]
pub struct Entry {
    pub slot: u64,
    pub size: Size,
}

impl Entry {
    /// The size of the image stored in the slot.
    pub fn size(&self) -> (r: Size)
        ensures
            r == self.size,
    {
        self.size
    }
}

/// A shared handle to a dedicated binding of an image on the device.
#[derive(Clone, Copy, Debug, PartialEq, Eq, Structural)]
pub struct BindGroup {
    pub id: u64,
}

/// Where the pixels of a cached image live.
#[derive(Debug)]
pub enum Memory {
    /// Image data on the host.
    Host(Image),
    /// Image data on the device: an atlas slot, unless a dedicated binding
    /// holds it, and an optional handle to an allocation owned elsewhere.
    Device { entry: Entry, bind_group: Option<BindGroup>, allocation: Option<u64> },
    /// The image could not be loaded.
    Error(Error),
}

/// The number of bytes that RGBA pixels of the given size take.
pub open spec fn rgba_len(width: u32, height: u32) -> int {
    4 * width * height
}

/// Why pixel data of the given size and length cannot form an image, if it cannot.
pub open spec fn load_error(width: u32, height: u32, len: int) -> Option<Error> {
    if width == 0 || height == 0 {
        Some(Error::Empty)
    } else if len != rgba_len(width, height) {
        Some(Error::Invalid)
    } else {
        None
    }
}

/// Whether a record is what loading the handle yields: its pixels when they
/// form an image, else the reason they do not.
pub open spec fn loaded(h: Handle, m: Memory) -> bool {
    match m {
        Memory::Host(image) => load_error(h.width, h.height, h.pixels@.len() as int) is None
            && image@ == (h.width, h.height, h.pixels@),
        Memory::Error(e) => load_error(h.width, h.height, h.pixels@.len() as int) == Some(e),
        Memory::Device { .. } => false,
    }
}

/// The size that a record reports: that of its pixels, of its atlas slot, or
/// one by one for a failed image.
pub open spec fn size_of(m: Memory) -> Size {
    match m {
        Memory::Host(image) => Size { width: image.width, height: image.height },
        Memory::Device { entry, .. } => entry.size,
        Memory::Error(_) => Size { width: 1, height: 1 },
    }
}

impl Memory {
    /// Loads the pixels of a handle into host memory.
    pub fn load(handle: &Handle) -> (r: Memory)
        ensures
            loaded(*handle, r),
    {
        let len: u128 = handle.pixels.len() as u128;
        let width: u128 = handle.width as u128;
        let height: u128 = handle.height as u128;
        assert(width * height <= 0xffff_ffffu128 * 0xffff_ffffu128) by (nonlinear_arith)
            requires
                width <= 0xffff_ffffu128,
                height <= 0xffff_ffffu128,
        ;
        let area: u128 = width * height;
        assert(4 * area == rgba_len(handle.width, handle.height)) by (nonlinear_arith)
            requires
                area == width * height,
                width == handle.width,
                height == handle.height,
        ;
        if handle.width == 0 || handle.height == 0 {
            Memory::Error(Error::Empty)
        } else if len != 4 * area {
            Memory::Error(Error::Invalid)
        } else {
            let pixels = handle.pixels.clone();
            assert(pixels@ =~= handle.pixels@);
            Memory::Host(Image { width: handle.width, height: handle.height, pixels })
        }
    }

    /// The size of the image that the record stands for.
    pub fn dimensions(&self) -> (r: Size)
        ensures
            r == size_of(*self),
    {
        match self {
            Memory::Host(image) => {
                let (width, height) = image.dimensions();
                Size::new(width, height)
            },
            Memory::Device { entry, .. } => entry.size(),
            Memory::Error(_) => Size::new(1, 1),
        }
    }

    /// A copy of the pixels, if they are in host memory.
    pub fn host(&self) -> (r: Option<Image>)
        ensures
            match *self {
                Memory::Host(image) => r is Some && r->0@ == image@,
                _ => r is None,
            },
    {
        match self {
            Memory::Host(image) => {
                let pixels = image.pixels.clone();
                assert(pixels@ =~= image.pixels@);
                Some(Image { width: image.width, height: image.height, pixels })
            },
            Memory::Device { .. } | Memory::Error(_) => None,
        }
    }
}

} // verus!
