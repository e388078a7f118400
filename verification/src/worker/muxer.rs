use vstd::prelude::*;

verus! {

/// The timing of one packet read from an input file.
#[derive(Debug, Clone, Copy, PartialEq, Eq, Structural)]
pub struct PacketTiming {
    pub stream_index: i32,
    pub pts: i64,
    pub dts: i64,
    pub duration: i64,
}

/// The running time while concatenating files: the total duration of the
/// files written so far and of the file being written.
#[derive(Debug, Clone, Copy, PartialEq, Eq, Structural)]
pub struct MergeClock {
    pub previous_files_duration: i64,
    pub this_file_duration: i64,
}

impl MergeClock {
    /// A clock before the first file.
    pub fn new() -> (c: Self)
        ensures
            c.previous_files_duration == 0,
            c.this_file_duration == 0,
    {
        MergeClock { previous_files_duration: 0, this_file_duration: 0 }
    }

    /// Places a packet of the current file on the output's time line: a
    /// packet of another stream than the file's audio stream is skipped;
    /// an audio packet is shifted by the duration of the earlier files and
    /// written to the output's only stream.
    pub fn shift_packet(&mut self, audio_stream: i32, pkt: PacketTiming) -> (r: Option<PacketTiming>)
        requires
            pkt.stream_index == audio_stream ==> {
                &&& i64::MIN <= old(self).this_file_duration + pkt.duration <= i64::MAX
                &&& i64::MIN <= pkt.pts + old(self).previous_files_duration <= i64::MAX
                &&& i64::MIN <= pkt.dts + old(self).previous_files_duration <= i64::MAX
            },
        ensures
            final(self).previous_files_duration == old(self).previous_files_duration,
            pkt.stream_index != audio_stream ==> r is None && final(self).this_file_duration == old(self).this_file_duration,
            pkt.stream_index == audio_stream ==> {
                &&& final(self).this_file_duration == old(self).this_file_duration + pkt.duration
                &&& r == Some(PacketTiming {
                    stream_index: 0,
                    pts: (pkt.pts + old(self).previous_files_duration) as i64,
                    dts: (pkt.dts + old(self).previous_files_duration) as i64,
                    duration: pkt.duration,
                })
            },
    {
        if pkt.stream_index != audio_stream {
            return None;
        }
        self.this_file_duration = self.this_file_duration + pkt.duration;
        Some(PacketTiming {
            stream_index: 0,
            pts: pkt.pts + self.previous_files_duration,
            dts: pkt.dts + self.previous_files_duration,
            duration: pkt.duration,
        })
    }

    /// The end of an input file: its duration joins that of the earlier ones.
    pub fn finish_file(&mut self)
        requires
            i64::MIN <= old(self).previous_files_duration + old(self).this_file_duration <= i64::MAX,
        ensures
            final(self).previous_files_duration == old(self).previous_files_duration + old(self).this_file_duration,
            final(self).this_file_duration == 0,
    {
        self.previous_files_duration = self.previous_files_duration + self.this_file_duration;
        self.this_file_duration = 0;
    }
}

} // verus!
