use vstd::prelude::*;

use crate::precision::Precision;

verus! {

/// Settings that control one decode run.
#[derive(Clone, Copy, Debug, PartialEq, Eq, Structural)]
pub struct DecoderConfig {
    /// How many packets to process before the safety cutoff stops the run.
    pub packets_limit: i32,
    /// Downsampling level applied to each packet; `Max` keeps everything,
    /// so the result may be heavy.
    pub precision: Precision,
}

impl DecoderConfig {
    /// The stock configuration: a limit of 100000 packets, no downsampling.
    pub fn default() -> (r: Self)
        ensures
            r.packets_limit == 100000,
            r.precision == Precision::Max,
    {
        DecoderConfig { packets_limit: 100000, precision: Precision::Max }
    }

    pub fn new(packets_limit: i32, precision: Precision) -> (r: Self)
        ensures
            r.packets_limit == packets_limit,
            r.precision == precision,
    {
        DecoderConfig { packets_limit, precision }
    }
}

/// A decode job: the path of the input file together with the settings the
/// run should follow. It is stateless between runs; a driver re-opens the
/// file for each one.
#[derive(Debug)]
pub struct Decoder {
    pub config: DecoderConfig,
    /// Path of the input file; the driver that owns the file system reads it.
    pub file_path: String,
}

impl Decoder {
    pub fn new(file_path: &str, cfg: DecoderConfig) -> (r: Self)
        ensures
            r.config == cfg,
            r.file_path@ == file_path@,
    {
        Decoder { config: cfg, file_path: file_path.to_owned() }
    }
}

} // verus!
