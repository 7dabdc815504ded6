//! Decoded video frames.
use vstd::prelude::*;

use std::sync::Arc;

verus! {

/// Pixel data of a frame.
pub trait FrameData {
    fn to_vec(&self) -> Vec<u8>;
}

impl FrameData for Vec<u8> {
    fn to_vec(&self) -> (r: Vec<u8>)
        ensures
            r@ == self@,
    {
        self.clone()
    }
}

/// Read access to a decoded frame.
pub trait Frame {
    fn get_width(&self) -> i32;

    fn get_height(&self) -> i32;

    fn get_data(&self) -> Arc<Vec<u8>>;

    fn get_texture_id(&self) -> Result<u32, ()>;

    fn get_stride(&self) -> i32;

    fn get_offset(&self) -> i32;
}

/// Something that displays frames; implemented by the embedding application.
pub trait FrameRenderer {
    fn render(&self, frame: VideoFrame);
}

/// An immutable decoded frame. Copies share the pixel buffer.
#[derive(Debug)]
pub struct VideoFrame {
    pub width: i32,
    pub height: i32,
    pub data: Arc<Vec<u8>>,
    /// Texture handle, for frames that live on the GPU.
    pub texture_id: Option<u32>,
    pub stride: i32,
    pub offset: i32,
}

impl Clone for VideoFrame {
    fn clone(&self) -> (r: VideoFrame)
        ensures
            r == *self,
    {
        VideoFrame {
            width: self.width,
            height: self.height,
            data: Arc::clone(&self.data),
            texture_id: self.texture_id,
            stride: self.stride,
            offset: self.offset,
        }
    }
}

impl VideoFrame {
    /// A frame of the given size over `data`, with no texture, no stride and
    /// no offset.
    pub fn new(width: i32, height: i32, data: Arc<Vec<u8>>) -> (r: VideoFrame)
        ensures
            r.width == width,
            r.height == height,
            r.data == data,
            r.texture_id.is_none(),
            r.stride == 0,
            r.offset == 0,
    {
        VideoFrame { width, height, data, texture_id: None, stride: 0, offset: 0 }
    }
}

impl Frame for VideoFrame {
    fn get_width(&self) -> (r: i32)
        ensures
            r == self.width,
    {
        self.width
    }

    fn get_height(&self) -> (r: i32)
        ensures
            r == self.height,
    {
        self.height
    }

    fn get_data(&self) -> (r: Arc<Vec<u8>>)
        ensures
            r == self.data,
    {
        Arc::clone(&self.data)
    }

    fn get_texture_id(&self) -> (r: Result<u32, ()>)
        ensures
            r == match self.texture_id {
                Some(t) => Ok::<u32, ()>(t),
                None => Err(()),
            },
    {
        match self.texture_id {
            Some(t) => Ok(t),
            None => Err(()),
        }
    }

    fn get_stride(&self) -> (r: i32)
        ensures
            r == self.stride,
    {
        self.stride
    }

    fn get_offset(&self) -> (r: i32)
        ensures
            r == self.offset,
    {
        self.offset
    }
}

} // verus!
