//! Pixel colour transformations for a family of video-effect filters:
//! depth conversion, colour matching and substitution, luma keying and
//! chroma extraction. Every function is verified against its contract.

pub mod colorchange;
pub mod colorchangesimple;
pub mod colorkey;
pub mod colorselect;
pub mod extraction;
pub mod hls;
pub mod keying;
pub mod matcher;
pub mod opticaldiffusion;
pub mod pixel;
pub mod render;
pub mod substitution;
pub mod utils;
