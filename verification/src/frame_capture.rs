//! Capture of presented frames: which frames are kept, in what form, and
//! under which file names they are to be written.

use vstd::prelude::*;
use crate::config::DebugConfig;

verus! {

/// A captured frame: opaque RGBA pixels, row by row.
#[derive(Debug)]
pub struct Frame {
    /// The step counter at the moment of capture.
    pub frame_counter: u32,
    /// The frame's width in pixels.
    pub width: u32,
    /// The frame's height in pixels.
    pub height: u32,
    /// Four bytes per pixel: red, green, blue, and an alpha of 255.
    pub pixels: Vec<u8>,
}

/// The first `4 * pixel_count` bytes of `source`, read as pixels of four
/// bytes, with every fourth byte replaced by an alpha of 255.
pub open spec fn opaque_rgba(source: Seq<u8>, pixel_count: nat) -> Seq<u8> {
    Seq::new(
        4 * pixel_count,
        |k: int|
            if k % 4 == 3 {
                255u8
            } else {
                source[k]
            },
    )
}

/// Copies `pixel_count` pixels out of a source of four bytes per pixel,
/// keeping the three colour channels and forcing the alpha to 255.
fn to_opaque_rgba(source: &[u8], pixel_count: usize) -> (rgba: Vec<u8>)
    requires
        4 * pixel_count <= source.len(),
    ensures
        rgba@ == opaque_rgba(source@, pixel_count as nat),
{
    let mut rgba: Vec<u8> = Vec::with_capacity(4 * pixel_count);
    let mut pixel: usize = 0;
    while pixel < pixel_count
        invariant
            pixel <= pixel_count,
            4 * pixel_count <= source.len(),
            rgba@ == opaque_rgba(source@, pixel as nat),
        decreases pixel_count - pixel,
    {
        let start: usize = pixel * 4;
        rgba.push(source[start]);
        rgba.push(source[start + 1]);
        rgba.push(source[start + 2]);
        rgba.push(255);
        pixel = pixel + 1;
        assert(rgba@ =~= opaque_rgba(source@, pixel as nat));
    }
    rgba
}

/// The character of the decimal digit `digit`.
pub open spec fn digit_char(digit: nat) -> char {
    "0123456789"@[digit as int]
}

/// The decimal numeral of `n`, without leading zeros.
pub open spec fn decimal(n: nat) -> Seq<char>
    decreases n,
{
    if n < 10 {
        seq![digit_char(n)]
    } else {
        decimal(n / 10).push(digit_char(n % 10))
    }
}

/// The decimal numeral of `n`, with zeros in front where it has fewer than
/// `width` digits.
pub open spec fn zero_padded(n: nat, width: nat) -> Seq<char> {
    let digits = decimal(n);
    if digits.len() >= width {
        digits
    } else {
        Seq::new((width - digits.len()) as nat, |i: int| '0') + digits
    }
}

/// The path of the image file of the frame captured at `frame_counter`:
/// in `directory`, `frame_`, the counter in at least four digits, `.png`.
pub open spec fn frame_file_name(directory: Seq<char>, frame_counter: u32) -> Seq<char> {
    directory + "/frame_"@ + zero_padded(frame_counter as nat, 4) + ".png"@
}

fn digit_str(digit: u32) -> (text: &'static str)
    requires
        digit < 10,
    ensures
        text@ == seq![digit_char(digit as nat)],
{
    proof {
        reveal_strlit("0123456789");
        reveal_strlit("0");
        reveal_strlit("1");
        reveal_strlit("2");
        reveal_strlit("3");
        reveal_strlit("4");
        reveal_strlit("5");
        reveal_strlit("6");
        reveal_strlit("7");
        reveal_strlit("8");
        reveal_strlit("9");
    }
    let text = if digit == 0 {
        "0"
    } else if digit == 1 {
        "1"
    } else if digit == 2 {
        "2"
    } else if digit == 3 {
        "3"
    } else if digit == 4 {
        "4"
    } else if digit == 5 {
        "5"
    } else if digit == 6 {
        "6"
    } else if digit == 7 {
        "7"
    } else if digit == 8 {
        "8"
    } else {
        "9"
    };
    assert(text@ =~= seq![digit_char(digit as nat)]);
    text
}

fn decimal_string(n: u32) -> (text: String)
    ensures
        text@ == decimal(n as nat),
    decreases n,
{
    if n < 10 {
        String::from_str(digit_str(n))
    } else {
        let mut text = decimal_string(n / 10);
        text.append(digit_str(n % 10));
        assert(text@ =~= decimal(n as nat));
        text
    }
}

/// Writes the path of the image file of the frame captured at
/// `frame_counter`.
pub fn file_name(directory: &str, frame_counter: u32) -> (path: String)
    ensures
        path@ == frame_file_name(directory@, frame_counter),
{
    let digits = decimal_string(frame_counter);
    let digit_count: usize = digits.as_str().unicode_len();
    let mut path = String::from_str(directory);
    path.append("/frame_");
    let ghost stem = path@;
    let mut written: usize = digit_count;
    while written < 4
        invariant
            digit_count <= written,
            written <= 4 || written == digit_count,
            path@ == stem + Seq::new((written - digit_count) as nat, |i: int| '0'),
        decreases 4 - written,
    {
        proof {
            reveal_strlit("0");
        }
        path.append("0");
        written = written + 1;
        assert(path@ =~= stem + Seq::new((written - digit_count) as nat, |i: int| '0'));
    }
    path.append(digits.as_str());
    path.append(".png");
    assert(path@ =~= frame_file_name(directory@, frame_counter));
    path
}

/// Keeps copies of presented frames until they are written out.
///
/// A frame is kept when fewer than the configured maximum are held and its
/// step counter is 1 or a multiple of the configured interval.
pub struct FrameCapture {
    captured_frames: Vec<Frame>,
    output_directory: String,
    max_captured_frames: usize,
    frame_capture_interval: u32,
}

impl FrameCapture {
    /// The frames held, oldest first.
    pub closed spec fn frames(&self) -> Seq<Frame> {
        self.captured_frames@
    }

    /// The directory that the frames are to be written to.
    pub closed spec fn directory(&self) -> Seq<char> {
        self.output_directory@
    }

    /// The largest number of frames that is held.
    pub closed spec fn limit(&self) -> usize {
        self.max_captured_frames
    }

    /// The cadence of capture, in steps.
    pub closed spec fn interval(&self) -> u32 {
        self.frame_capture_interval
    }

    /// Whether the cadence can be evaluated for a frame with this step
    /// counter: an interval of zero divides nothing.
    pub open spec fn can_decide(&self, frame_counter: u32) -> bool {
        self.interval() != 0 || frame_counter == 1 || self.frames().len() >= self.limit()
    }

    /// Whether a frame with this step counter is kept.
    pub open spec fn captures(&self, frame_counter: u32) -> bool {
        self.frames().len() < self.limit() && (frame_counter == 1 || frame_counter
            % self.interval() == 0)
    }

    /// Whether `next` is `self` with one more frame at the end: the first
    /// `4 * (width * height)` bytes of `source` as opaque pixels, stamped with
    /// the counter and the size.
    pub open spec fn holds_one_more(
        &self,
        next: &FrameCapture,
        frame_counter: u32,
        width: u32,
        height: u32,
        source: Seq<u8>,
    ) -> bool {
        &&& next.frames().len() == self.frames().len() + 1
        &&& next.frames().drop_last() == self.frames()
        &&& next.frames().last().frame_counter == frame_counter
        &&& next.frames().last().width == width
        &&& next.frames().last().height == height
        &&& next.frames().last().pixels@ == opaque_rgba(source, (width * height) as nat)
    }

    /// Whether `other` has the same settings as `self`.
    pub open spec fn same_settings(&self, other: &FrameCapture) -> bool {
        &&& other.directory() == self.directory()
        &&& other.limit() == self.limit()
        &&& other.interval() == self.interval()
    }

    /// An empty capture with the settings of `config`.
    pub fn new(config: &DebugConfig) -> (capture: FrameCapture)
        ensures
            capture.frames().len() == 0,
            capture.directory() == config.output_directory@,
            capture.limit() == config.max_captured_frames,
            capture.interval() == config.frame_capture_interval,
    {
        FrameCapture {
            captured_frames: Vec::new(),
            output_directory: config.output_directory.clone(),
            max_captured_frames: config.max_captured_frames,
            frame_capture_interval: config.frame_capture_interval,
        }
    }

    /// The capture that `config` asks for: none unless frame capture is
    /// enabled.
    pub fn from_config(config: &DebugConfig) -> (capture: Option<FrameCapture>)
        ensures
            capture.is_some() == config.enable_frame_capture,
            capture matches Some(c) ==> {
                &&& c.frames().len() == 0
                &&& c.directory() == config.output_directory@
                &&& c.limit() == config.max_captured_frames
                &&& c.interval() == config.frame_capture_interval
            },
    {
        if config.enable_frame_capture {
            Some(FrameCapture::new(config))
        } else {
            None
        }
    }

    /// The frames held, oldest first.
    pub fn captured_frames(&self) -> (frames: &Vec<Frame>)
        ensures
            frames@ == self.frames(),
    {
        &self.captured_frames
    }

    /// The directory that the frames are to be written to.
    pub fn output_directory(&self) -> (directory: &String)
        ensures
            directory@ == self.directory(),
    {
        &self.output_directory
    }

    /// The largest number of frames that is held.
    pub fn max_captured_frames(&self) -> (limit: usize)
        ensures
            limit == self.limit(),
    {
        self.max_captured_frames
    }

    /// The cadence of capture, in steps.
    pub fn frame_capture_interval(&self) -> (interval: u32)
        ensures
            interval == self.interval(),
    {
        self.frame_capture_interval
    }

    /// Tells whether a frame with this step counter would be kept.
    pub fn should_capture(&self, frame_counter: u32) -> (keep: bool)
        requires
            self.can_decide(frame_counter),
        ensures
            keep == self.captures(frame_counter),
    {
        self.captured_frames.len() < self.max_captured_frames && (frame_counter == 1
            || frame_counter % self.frame_capture_interval == 0)
    }

    /// Offers the presented frame with this step counter and size. `pixels`
    /// holds it row by row, four bytes per pixel with the colour channels
    /// first. The frame is copied and kept if it is due, and ignored if not.
    pub fn capture_frame(&mut self, frame_counter: u32, width: u32, height: u32, pixels: &[u8])
        requires
            old(self).can_decide(frame_counter),
            old(self).captures(frame_counter) ==> 4 * (width * height) <= pixels.len(),
        ensures
            old(self).same_settings(final(self)),
            old(self).captures(frame_counter) ==> old(self).holds_one_more(
                final(self),
                frame_counter,
                width,
                height,
                pixels@,
            ),
            !old(self).captures(frame_counter) ==> final(self).frames() == old(self).frames(),
    {
        if self.should_capture(frame_counter) {
            proof {
                assert(0 <= width * height) by (nonlinear_arith);
            }
            let pixel_count: usize = width as usize * height as usize;
            let rgba = to_opaque_rgba(pixels, pixel_count);
            self.captured_frames.push(Frame { frame_counter, width, height, pixels: rgba });
            assert(self.frames().drop_last() =~= old(self).frames());
        }
    }

    /// The paths of the image files of the frames held, in the order of the
    /// frames.
    pub fn save_frames(&self) -> (paths: Vec<String>)
        ensures
            paths@.len() == self.frames().len(),
            forall|i: int|
                0 <= i < paths@.len() ==> (#[trigger] paths@[i])@ == frame_file_name(
                    self.directory(),
                    self.frames()[i].frame_counter,
                ),
    {
        let mut paths: Vec<String> = Vec::new();
        let mut index: usize = 0;
        while index < self.captured_frames.len()
            invariant
                index <= self.captured_frames.len(),
                paths@.len() == index,
                forall|i: int|
                    0 <= i < index ==> (#[trigger] paths@[i])@ == frame_file_name(
                        self.directory(),
                        self.frames()[i].frame_counter,
                    ),
            decreases self.captured_frames.len() - index,
        {
            let path = file_name(
                self.output_directory.as_str(),
                self.captured_frames[index].frame_counter,
            );
            paths.push(path);
            index = index + 1;
        }
        paths
    }
}

} // verus!
