use vstd::prelude::*;

use crate::config::DecoderConfig;
use crate::precision::Precision;
use crate::sampling::compress;
use crate::sampling::decimate;
use crate::sampling::lemma_decimate_identity;

verus! {

/// What the decode loop should do after a packet was taken in.
#[derive(Clone, Copy, Debug, PartialEq, Eq, Structural)]
pub struct PacketOutcome {
    /// False once the safety cutoff is reached: the driver must stop
    /// requesting packets and return what was gathered, as a success.
    pub continue_decoding: bool,
    /// True on every 100th packet: the driver may emit a progress note.
    /// Informational only.
    pub report_progress: bool,
}

/// One decode run's own state: the accumulated samples and the packet
/// counter, advanced one packet at a time.
///
/// The driver that talks to the demuxer feeds this machine the canonical
/// 16-bit samples of each packet's first channel. A clean end of the
/// stream ends the run through [`DecodeSession::finish`]; any decode
/// failure abandons the whole session, so no partial result survives an
/// error.
pub struct DecodeSession {
    pub config: DecoderConfig,
    /// Samples gathered so far, already downsampled packet by packet.
    pub samples: Vec<i16>,
    /// Packets taken in so far.
    pub packet_count: i32,
}

impl DecodeSession {
    /// A fresh run: nothing gathered, nothing counted.
    pub fn new(config: DecoderConfig) -> (s: Self)
        ensures
            s.config == config,
            s.samples@ == Seq::<i16>::empty(),
            s.packet_count == 0,
    {
        DecodeSession { config, samples: Vec::new(), packet_count: 0 }
    }

    /// Takes in one decoded packet: downsamples it by the configured
    /// precision (skipped entirely at `Max`), appends the kept samples,
    /// and counts the packet.
    ///
    /// The safety cutoff stops the run once the running packet count
    /// exceeds `packets_limit` — the count is compared, not the limit
    /// against a fixed threshold — so a stream that never signals its end
    /// cannot hold the loop forever.
    pub fn on_packet(&mut self, packet: Vec<i16>) -> (outcome: PacketOutcome)
        requires
            0 <= old(self).packet_count < i32::MAX,
        ensures
            final(self).config == old(self).config,
            final(self).packet_count == old(self).packet_count + 1,
            final(self).samples@ == old(self).samples@ + decimate(
                packet@,
                old(self).config.precision.stride(),
            ),
            outcome.report_progress == (final(self).packet_count % 100 == 0),
            outcome.continue_decoding == (final(self).packet_count
                <= old(self).config.packets_limit),
    {
        let ghost packet_view = packet@;
        let mut kept = match self.config.precision {
            Precision::Max => {
                proof {
                    lemma_decimate_identity(packet@);
                }
                packet
            },
            level => compress(packet, level),
        };
        self.samples.append(&mut kept);
        self.packet_count = self.packet_count + 1;
        let report_progress = self.packet_count % 100 == 0;
        let continue_decoding = self.packet_count <= self.config.packets_limit;
        PacketOutcome { continue_decoding, report_progress }
    }

    /// Ends the run cleanly and hands the gathered samples to the caller.
    pub fn finish(self) -> (r: Vec<i16>)
        ensures
            r@ == self.samples@,
    {
        self.samples
    }
}

} // verus!
