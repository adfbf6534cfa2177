//! Settings that SRT callers and listeners share.
use vstd::prelude::*;
use crate::text::clone_text;

verus! {

/// Size of an SRT packet in bytes.
pub const SRT_PACKET_SIZE: i32 = 1316;

/// Forward error correction of an SRT stream.
#[derive(Debug, Clone, Copy)]
pub struct FecConfig {
    /// Number of columns: data packets per block.
    pub cols: u32,
    /// Number of rows; rows by columns is the overhead.
    pub rows: u32,
    /// When lost packets are asked for again: never (0), on request (1), always (2).
    pub arq_level: Option<u32>,
    /// Staircase layout, which recovers better from bursts of losses.
    pub staircase: bool,
}

/// Settings that SRT callers and listeners share.
#[derive(Debug, Default)]
pub struct SrtCommonConfig {
    pub latency_ms: Option<i32>,
    pub stream_id: Option<String>,
    pub passphrase: Option<String>,
    /// Expected bitrate, from which the buffers are sized.
    pub expected_bitrate_kbps: Option<u32>,
    pub fec: Option<FecConfig>,
}

/// Sizes of the buffers of an SRT socket.
#[derive(Debug, Clone, Copy, PartialEq, Eq)]
pub struct BufferSizes {
    pub rcv_buf: i32,
    pub snd_buf: i32,
    pub fc: i32,
    pub udp_rcv_buf: i32,
    pub udp_snd_buf: i32,
}

/// What an SRT socket is set up with; `None` leaves the library's default.
#[derive(Debug)]
pub struct SrtSettings {
    pub peer_latency: Option<i32>,
    pub receive_latency: Option<i32>,
    pub buffers: Option<BufferSizes>,
    pub fec: Option<FecConfig>,
    pub stream_id: Option<String>,
    pub passphrase: Option<String>,
    pub live: bool,
}

/// Division that rounds towards zero.
pub open spec fn div_to_zero(a: int, b: int) -> int {
    if a >= 0 {
        a / b
    } else {
        -((-a) / b)
    }
}

/// Bytes that arrive within the latency, with a quarter on top for packets sent again:
/// bitrate times latency times 1.25, by 8 bits.
pub open spec fn receive_buffer_bytes(bitrate_kbps: u32, latency_ms: i32) -> int {
    div_to_zero(bitrate_kbps * latency_ms * 5, 32)
}

/// Whether twice the receive buffer is a size that a socket option can hold.
pub open spec fn buffers_fit(bitrate_kbps: u32, latency_ms: i32) -> bool {
    i32::MIN <= 2 * receive_buffer_bytes(bitrate_kbps, latency_ms) <= i32::MAX
}

pub open spec fn buffer_sizes(bitrate_kbps: u32, latency_ms: i32) -> BufferSizes {
    let rcv = receive_buffer_bytes(bitrate_kbps, latency_ms);
    BufferSizes {
        rcv_buf: rcv as i32,
        snd_buf: rcv as i32,
        fc: div_to_zero(rcv, SRT_PACKET_SIZE as int) as i32,
        udp_rcv_buf: (2 * rcv) as i32,
        udp_snd_buf: (2 * rcv) as i32,
    }
}

fn receive_bytes(bitrate_kbps: u32, latency_ms: i32) -> (r: i128)
    ensures
        r == receive_buffer_bytes(bitrate_kbps, latency_ms),
{
    let ghost exact = bitrate_kbps * latency_ms * 5;
    assert(-0x1_0000_0000 * 0x8000_0000 <= bitrate_kbps * latency_ms <= 0x1_0000_0000 * 0x8000_0000)
        by (nonlinear_arith)
        requires
            0 <= bitrate_kbps <= 0xffff_ffff,
            -0x8000_0000 <= latency_ms <= 0x7fff_ffff,
    ;
    let product: i128 = bitrate_kbps as i128 * latency_ms as i128 * 5;
    assert(product == exact);
    if product >= 0 {
        let quotient: u128 = product as u128 / 32;
        quotient as i128
    } else {
        let quotient: u128 = (-product) as u128 / 32;
        -(quotient as i128)
    }
}

impl Clone for SrtCommonConfig {
    fn clone(&self) -> (r: Self)
        ensures
            r == *self,
    {
        SrtCommonConfig {
            latency_ms: self.latency_ms,
            stream_id: clone_text(&self.stream_id),
            passphrase: clone_text(&self.passphrase),
            expected_bitrate_kbps: self.expected_bitrate_kbps,
            fec: self.fec,
        }
    }
}

impl SrtCommonConfig {
    /// Whether the buffers that these settings ask for, if any, are sizes that a socket
    /// option can hold.
    pub open spec fn fits(self) -> bool {
        match (self.latency_ms, self.expected_bitrate_kbps) {
            (Some(lat), Some(rate)) => buffers_fit(rate, lat),
            _ => true,
        }
    }

    /// Tell whether the buffers that these settings ask for are sizes that a socket option
    /// can hold.
    pub fn buffer_sizes_fit(&self) -> (r: bool)
        ensures
            r == self.fits(),
    {
        match (self.latency_ms, self.expected_bitrate_kbps) {
            (Some(lat), Some(rate)) => {
                let rcv: i128 = receive_bytes(rate, lat);
                -0x4000_0000 <= rcv && rcv <= 0x3fff_ffff
            },
            _ => true,
        }
    }

    /// Buffer sizes for a bitrate and a latency.
    pub fn calculate_buffer_sizes(bitrate_kbps: u32, latency_ms: i32) -> (r: BufferSizes)
        requires
            buffers_fit(bitrate_kbps, latency_ms),
        ensures
            r == buffer_sizes(bitrate_kbps, latency_ms),
    {
        let rcv: i128 = receive_bytes(bitrate_kbps, latency_ms);
        let rcv_buf: i32 = rcv as i32;
        let fc: i32 = if rcv_buf >= 0 {
            (rcv_buf as u32 / 1316) as i32
        } else {
            -(((-(rcv_buf as i64)) as u32 / 1316) as i32)
        };
        BufferSizes {
            rcv_buf,
            snd_buf: rcv_buf,
            fc,
            udp_rcv_buf: rcv_buf * 2,
            udp_snd_buf: rcv_buf * 2,
        }
    }

    /// Settings of a blocking socket: the latency of the peer, stream id and passphrase.
    pub fn builder(&self) -> (r: SrtSettings)
        ensures
            r == (SrtSettings {
                peer_latency: self.latency_ms,
                receive_latency: None,
                buffers: None,
                fec: None,
                stream_id: self.stream_id,
                passphrase: self.passphrase,
                live: true,
            }),
    {
        SrtSettings {
            peer_latency: self.latency_ms,
            receive_latency: None,
            buffers: None,
            fec: None,
            stream_id: clone_text(&self.stream_id),
            passphrase: clone_text(&self.passphrase),
            live: true,
        }
    }

    /// The settings of an asynchronous socket.
    pub open spec fn async_settings(self) -> SrtSettings {
        SrtSettings {
            peer_latency: self.latency_ms,
            receive_latency: self.latency_ms,
            buffers: match (self.latency_ms, self.expected_bitrate_kbps) {
                (Some(lat), Some(rate)) => Some(buffer_sizes(rate, lat)),
                _ => None,
            },
            fec: self.fec,
            stream_id: self.stream_id,
            passphrase: self.passphrase,
            live: true,
        }
    }

    /// Settings of an asynchronous socket: both latencies, buffers where a latency and a
    /// bitrate are given, error correction, stream id and passphrase.
    pub fn async_builder(&self) -> (r: SrtSettings)
        requires
            self.fits(),
        ensures
            r == self.async_settings(),
    {
        let buffers = match (self.latency_ms, self.expected_bitrate_kbps) {
            (Some(lat), Some(rate)) => Some(Self::calculate_buffer_sizes(rate, lat)),
            _ => None,
        };
        SrtSettings {
            peer_latency: self.latency_ms,
            receive_latency: self.latency_ms,
            buffers,
            fec: self.fec,
            stream_id: clone_text(&self.stream_id),
            passphrase: clone_text(&self.passphrase),
            live: true,
        }
    }
}

// ---------------------------------------------------------------- laws

/// For latencies that are not negative the sizes are not negative, a longer latency never
/// shrinks the buffers, and the UDP buffers are twice the SRT buffers.
pub proof fn law_buffers_grow_with_latency(bitrate_kbps: u32, shorter: i32, longer: i32)
    requires
        0 <= shorter <= longer,
        buffers_fit(bitrate_kbps, longer),
    ensures
        buffers_fit(bitrate_kbps, shorter),
        0 <= buffer_sizes(bitrate_kbps, shorter).rcv_buf,
        buffer_sizes(bitrate_kbps, shorter).rcv_buf <= buffer_sizes(bitrate_kbps, longer).rcv_buf,
        0 <= buffer_sizes(bitrate_kbps, shorter).fc,
        buffer_sizes(bitrate_kbps, shorter).fc <= buffer_sizes(bitrate_kbps, longer).fc,
        buffer_sizes(bitrate_kbps, longer).udp_rcv_buf == 2 * buffer_sizes(
            bitrate_kbps,
            longer,
        ).rcv_buf,
{
    assert(0 <= bitrate_kbps * shorter <= bitrate_kbps * longer) by (nonlinear_arith)
        requires
            0 <= bitrate_kbps,
            0 <= shorter <= longer,
    ;
}

} // verus!
