use vstd::prelude::*;

verus! {

/// Why the engine could not be laid out.
#[derive(Debug, Clone, Copy, PartialEq, Eq, Structural)]
pub enum HostError {
    /// Channels times samples per channel is zero.
    NoBufferSize,
}

/// The sample layout of the engine: a block holds `num_channels` interleaved
/// channels of `num_samples_per_channel` samples each.
#[derive(Debug, Clone, Copy, PartialEq, Eq, Structural)]
pub struct HostConfig {
    pub buffer_size: usize,
    pub num_samples_per_channel: usize,
    pub num_channels: usize,
}

impl HostConfig {
    /// The layout for the given sizes, refused when a block would hold no sample.
    pub fn new(num_samples_per_channel: usize, num_channels: usize) -> (res: Result<HostConfig, HostError>)
        requires
            num_samples_per_channel * num_channels <= usize::MAX,
        ensures
            res is Ok <==> num_samples_per_channel * num_channels != 0,
            res matches Ok(c) ==> c.buffer_size == num_samples_per_channel * num_channels
                && c.num_samples_per_channel == num_samples_per_channel && c.num_channels
                == num_channels,
            res matches Err(e) ==> e == HostError::NoBufferSize,
    {
        let buffer_size = num_samples_per_channel * num_channels;
        if buffer_size == 0 {
            return Err(HostError::NoBufferSize);
        }
        Ok(HostConfig { buffer_size, num_samples_per_channel, num_channels })
    }
}

/// The buffer sizes an audio device supports, as its configuration reports them.
#[derive(Debug, Clone, Copy, PartialEq, Eq, Structural)]
pub enum SupportedBufferSize {
    Range { min: u32, max: u32 },
    Unknown,
}

/// Why the pair of audio devices cannot be used together.
#[derive(Debug, Clone, Copy, PartialEq, Eq, Structural)]
pub enum IoConfigError {
    /// Input and output have different channel counts.
    ChannelsMismatch,
    /// The output reports no buffer size range.
    NoOutputBufferSize,
    /// The input's buffer size range is not a single size.
    BufferMinMaxMismatch,
    /// The input's smallest buffer size differs from the output's.
    MinBufferMismatch,
    /// The input's largest buffer size differs from the output's.
    MaxBufferMismatch,
    /// The input reports no buffer size range.
    NoInputBufferSize,
}

/// The block layout both audio devices agree on; all zero until configured.
#[derive(Debug, Clone, Copy, PartialEq, Eq, Structural)]
pub struct IoLayout {
    num_channels: usize,
    num_samples_per_channel: usize,
}

/// The outcome of checking an input and an output configuration against
/// each other, in the order the checks are made.
pub open spec fn io_layout_check(
    input_channels: u16,
    output_channels: u16,
    input_buffer: SupportedBufferSize,
    output_buffer: SupportedBufferSize,
) -> Result<(usize, usize), IoConfigError> {
    if input_channels != output_channels {
        Err(IoConfigError::ChannelsMismatch)
    } else {
        match output_buffer {
            SupportedBufferSize::Unknown => Err(IoConfigError::NoOutputBufferSize),
            SupportedBufferSize::Range { min: out_min, max: out_max } => match input_buffer {
                SupportedBufferSize::Unknown => Err(IoConfigError::NoInputBufferSize),
                SupportedBufferSize::Range { min, max } => {
                    if min != max {
                        Err(IoConfigError::BufferMinMaxMismatch)
                    } else if out_min != min {
                        Err(IoConfigError::MinBufferMismatch)
                    } else if out_max != max {
                        Err(IoConfigError::MaxBufferMismatch)
                    } else {
                        Ok((output_channels as usize, max as usize))
                    }
                },
            },
        }
    }
}

impl IoLayout {
    pub closed spec fn channels(&self) -> nat {
        self.num_channels as nat
    }

    pub closed spec fn samples_per_channel(&self) -> nat {
        self.num_samples_per_channel as nat
    }

    /// No channel, no sample.
    pub fn new() -> (res: IoLayout)
        ensures
            res.channels() == 0,
            res.samples_per_channel() == 0,
    {
        IoLayout { num_channels: 0, num_samples_per_channel: 0 }
    }

    /// Samples in one interleaved block.
    pub fn get_total_buffer_size(&self) -> (res: usize)
        requires
            self.channels() * self.samples_per_channel() <= usize::MAX,
        ensures
            res == self.channels() * self.samples_per_channel(),
    {
        self.num_channels * self.num_samples_per_channel
    }

    pub fn get_num_channels(&self) -> (res: usize)
        ensures
            res == self.channels(),
    {
        self.num_channels
    }

    pub fn get_num_samples_per_channel(&self) -> (res: usize)
        ensures
            res == self.samples_per_channel(),
    {
        self.num_samples_per_channel
    }

    /// Checks an input and an output configuration against each other and,
    /// when they agree, takes the output's channel count and the input's buffer
    /// size as the layout. On a refusal the layout stays as it was.
    pub fn configure(
        &mut self,
        input_channels: u16,
        output_channels: u16,
        input_buffer: SupportedBufferSize,
        output_buffer: SupportedBufferSize,
    ) -> (res: Result<(), IoConfigError>)
        ensures
            match io_layout_check(input_channels, output_channels, input_buffer, output_buffer) {
                Ok((channels, samples)) => res is Ok && final(self).channels() == channels
                    && final(self).samples_per_channel() == samples,
                Err(e) => res == Err::<(), IoConfigError>(e) && *final(self) == *old(self),
            },
    {
        if input_channels != output_channels {
            return Err(IoConfigError::ChannelsMismatch);
        }
        let out_min: usize;
        let out_max: usize;
        match output_buffer {
            SupportedBufferSize::Range { min, max } => {
                out_min = min as usize;
                out_max = max as usize;
            },
            SupportedBufferSize::Unknown => {
                return Err(IoConfigError::NoOutputBufferSize);
            },
        }
        let samples: usize;
        match input_buffer {
            SupportedBufferSize::Range { min, max } => {
                if min != max {
                    return Err(IoConfigError::BufferMinMaxMismatch);
                }
                if out_min != min as usize {
                    return Err(IoConfigError::MinBufferMismatch);
                }
                if out_max != max as usize {
                    return Err(IoConfigError::MaxBufferMismatch);
                }
                samples = max as usize;
            },
            SupportedBufferSize::Unknown => {
                return Err(IoConfigError::NoInputBufferSize);
            },
        }
        self.num_samples_per_channel = samples;
        self.num_channels = output_channels as usize;
        Ok(())
    }
}

} // verus!
