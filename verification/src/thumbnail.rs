//! The generation configuration and the extraction executor's logic:
//! parameter validation, construction of the engine invocation, and the
//! mapping of process outcomes to typed results.

use vstd::prelude::*;
use vstd::string::*;

use crate::digits::dec_digits;
use crate::digits::u32_to_dec;

verus! {

/// A caller supplied a parameter outside its domain.
#[derive(Clone, Copy, Debug, PartialEq, Eq, Structural)]
pub enum ConfigError {
    /// Quality must lie in `[0, 100]`.
    QualityOutOfRange,
    /// Both resolution dimensions must be strictly positive.
    InvalidResolution,
}

/// Why an extraction did not produce a thumbnail.
#[derive(Clone, Debug)]
pub enum ExtractionError {
    /// The input path named no existing filesystem entry; the engine was
    /// never invoked.
    InputNotFound { path: String },
    /// The engine process could not be started at all.
    SpawnFailed { message: String },
    /// The engine ran and reported failure through its exit code
    /// (`-1` stands for a process that left no code behind).
    EngineFailed { exit_code: i32 },
}

/// What the caller observed of the engine process, handed back in as a
/// plain value.
#[derive(Clone, Debug)]
pub enum EngineOutcome {
    /// The process ran to an exit with this code.
    Exited { code: i32 },
    /// The process ended without an exit code (killed by a signal).
    Terminated,
    /// The process could not be spawned.
    SpawnError { message: String },
}

/// The validated, immutable generation parameters for one extraction.
///
/// A value built through [`ThumbnailGenerator::new`] and the validating
/// builders always satisfies [`ThumbnailGenerator::wf`]: quality in
/// `[0, 100]` and both resolution dimensions strictly positive.
#[derive(Clone, Copy, Debug)]
pub struct ThumbnailGenerator {
    quality: u8,
    resolution: (u32, u32),
}

impl ThumbnailGenerator {
    /// The configured encoder quality (lower often means better in the
    /// engine's own convention; the value is passed through untouched).
    pub closed spec fn spec_quality(&self) -> u8 {
        self.quality
    }

    /// The configured target width.
    pub closed spec fn spec_width(&self) -> u32 {
        self.resolution.0
    }

    /// The configured target height.
    pub closed spec fn spec_height(&self) -> u32 {
        self.resolution.1
    }

    /// Both domain constraints: quality in `[0, 100]`, dimensions positive.
    pub open spec fn wf(&self) -> bool {
        self.spec_quality() <= 100 && self.spec_width() > 0 && self.spec_height() > 0
    }

    /// Creates a configuration with the documented defaults:
    /// quality 80, resolution 320x240.
    pub fn new() -> (c: Self)
        ensures
            c.spec_quality() == 80,
            c.spec_width() == 320,
            c.spec_height() == 240,
            c.wf(),
    {
        Self { quality: 80, resolution: (320, 240) }
    }

    /// Returns a copy of the configuration with the given quality, or
    /// rejects a value outside `[0, 100]`. The resolution is kept.
    pub fn quality(self, quality: u8) -> (r: Result<Self, ConfigError>)
        ensures
            quality <= 100 ==> (r matches Ok(c) && c.spec_quality() == quality
                && c.spec_width() == self.spec_width() && c.spec_height() == self.spec_height()),
            quality > 100 ==> r == Err::<Self, ConfigError>(ConfigError::QualityOutOfRange),
    {
        if quality > 100 {
            Err(ConfigError::QualityOutOfRange)
        } else {
            Ok(Self { quality, resolution: self.resolution })
        }
    }

    /// Returns a copy of the configuration with the given resolution, or
    /// rejects a width or height of zero. The quality is kept.
    pub fn resolution(self, width: u32, height: u32) -> (r: Result<Self, ConfigError>)
        ensures
            width > 0 && height > 0 ==> (r matches Ok(c) && c.spec_width() == width
                && c.spec_height() == height && c.spec_quality() == self.spec_quality()),
            width == 0 || height == 0 ==> r == Err::<Self, ConfigError>(
                ConfigError::InvalidResolution,
            ),
    {
        if width == 0 || height == 0 {
            Err(ConfigError::InvalidResolution)
        } else {
            Ok(Self { quality: self.quality, resolution: (width, height) })
        }
    }

    /// The scale filter handed to the engine: `scale=<width>x<height>`.
    pub open spec fn spec_scale_filter(&self) -> Seq<char> {
        "scale="@ + dec_digits(self.spec_width() as nat) + "x"@ + dec_digits(
            self.spec_height() as nat,
        )
    }

    /// The full argument vector of one engine invocation: seek the input,
    /// scale to the configured resolution, encode at the configured
    /// quality, emit exactly one frame, write to the output path.
    pub open spec fn spec_engine_args(&self, input: Seq<char>, output: Seq<char>) -> Seq<
        Seq<char>,
    > {
        seq![
            "-i"@,
            input,
            "-vf"@,
            self.spec_scale_filter(),
            "-q:v"@,
            dec_digits(self.spec_quality() as nat),
            "-frames:v"@,
            "1"@,
            output,
        ]
    }

    /// Builds the scale filter string.
    fn scale_filter(&self) -> (s: String)
        ensures
            s@ == self.spec_scale_filter(),
    {
        let mut s = String::from_str("scale=");
        let w = u32_to_dec(self.resolution.0);
        s.append(w.as_str());
        s.append("x");
        let h = u32_to_dec(self.resolution.1);
        s.append(h.as_str());
        proof {
            assert(s@ =~= self.spec_scale_filter());
        }
        s
    }

    /// Builds the argument vector for one engine invocation.
    pub fn engine_args(&self, input_path: &str, output_path: &str) -> (args: Vec<String>)
        ensures
            arg_views(args@) == self.spec_engine_args(input_path@, output_path@),
    {
        let mut args: Vec<String> = Vec::new();
        args.push(String::from_str("-i"));
        args.push(String::from_str(input_path));
        args.push(String::from_str("-vf"));
        args.push(self.scale_filter());
        args.push(String::from_str("-q:v"));
        args.push(u32_to_dec(self.quality as u32));
        args.push(String::from_str("-frames:v"));
        args.push(String::from_str("1"));
        args.push(String::from_str(output_path));
        proof {
            assert(arg_views(args@) =~= self.spec_engine_args(input_path@, output_path@));
        }
        args
    }

    /// The preflight check and invocation planning of one extraction.
    ///
    /// `input_exists` is the caller's observation of the filesystem. When
    /// the input is missing the extraction fails at once with
    /// [`ExtractionError::InputNotFound`] and no invocation is produced, so
    /// the engine is never spawned for it; otherwise the result is the
    /// exact argument vector to run the engine with.
    pub fn plan_invocation(&self, input_path: &str, output_path: &str, input_exists: bool) -> (r:
        Result<Vec<String>, ExtractionError>)
        ensures
            input_exists ==> (r matches Ok(args) && arg_views(args@) == self.spec_engine_args(
                input_path@,
                output_path@,
            )),
            !input_exists ==> (r matches Err(e) && e matches ExtractionError::InputNotFound {
                path,
            } && path@ == input_path@),
    {
        if !input_exists {
            Err(ExtractionError::InputNotFound { path: String::from_str(input_path) })
        } else {
            Ok(self.engine_args(input_path, output_path))
        }
    }

    /// The configured quality, as a plain value.
    pub fn quality_value(&self) -> (q: u8)
        ensures
            q == self.spec_quality(),
    {
        self.quality
    }

    /// The configured resolution, as a plain `(width, height)` pair.
    pub fn resolution_value(&self) -> (r: (u32, u32))
        ensures
            r.0 == self.spec_width(),
            r.1 == self.spec_height(),
    {
        self.resolution
    }
}

impl Default for ThumbnailGenerator {
    /// Same defaults as [`ThumbnailGenerator::new`].
    fn default() -> (c: Self)
        ensures
            c.spec_quality() == 80,
            c.spec_width() == 320,
            c.spec_height() == 240,
            c.wf(),
    {
        Self { quality: 80, resolution: (320, 240) }
    }
}

/// The character sequences of a vector of argument strings.
pub open spec fn arg_views(args: Seq<String>) -> Seq<Seq<char>> {
    args.map_values(|s: String| s@)
}

/// The extraction's result for each possible engine outcome: exit code 0
/// is success, any other exit is [`ExtractionError::EngineFailed`]
/// carrying the code verbatim (`-1` when no code was left behind), and a
/// process that never started is [`ExtractionError::SpawnFailed`]
/// carrying the caller's description.
pub open spec fn spec_interpret_outcome(outcome: EngineOutcome) -> Result<(), ExtractionError> {
    match outcome {
        EngineOutcome::Exited { code } => if code == 0 {
            Ok(())
        } else {
            Err(ExtractionError::EngineFailed { exit_code: code })
        },
        EngineOutcome::Terminated => Err(ExtractionError::EngineFailed { exit_code: -1i32 }),
        EngineOutcome::SpawnError { message } => Err(ExtractionError::SpawnFailed { message }),
    }
}

/// Maps what was observed of the engine process to the extraction's
/// result, exactly as [`spec_interpret_outcome`] states it.
pub fn interpret_outcome(outcome: EngineOutcome) -> (r: Result<(), ExtractionError>)
    ensures
        r == spec_interpret_outcome(outcome),
{
    match outcome {
        EngineOutcome::Exited { code } => {
            if code == 0 {
                Ok(())
            } else {
                Err(ExtractionError::EngineFailed { exit_code: code })
            }
        },
        EngineOutcome::Terminated => Err(ExtractionError::EngineFailed { exit_code: -1 }),
        EngineOutcome::SpawnError { message } => Err(ExtractionError::SpawnFailed { message }),
    }
}

} // verus!
