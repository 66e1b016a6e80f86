//! The format-context manager: the open/probe/finalize protocol.
//!
//! Opening a container is a two-phase acquisition against the native
//! library: allocate a context and bind its byte transport, run the native
//! open (input) or allocation and sink-open (output) entry points, then, for
//! input only, run the stream-info probe. The native entry points themselves
//! live outside this crate; each step here takes the status that the native
//! call reported and decides what follows, so that a ready context value can
//! exist only after every check passed. The staged types below make a
//! partially-opened context unrepresentable: `InputContext` and
//! `OutputContext` have no public constructor and are minted only by the
//! last transition of their protocol.
//!
//! Status conventions differ by step, deliberately: the open and allocation
//! entry points succeed only on exactly zero, while the stream-info probe
//! accepts any non-negative status. That asymmetry is the native library's
//! own contract and is kept as it stands.

use vstd::prelude::*;

use crate::dictionary::Dictionary;
use crate::error::Error;
use crate::io::read_trampoline;
use crate::io::seek_trampoline;
use crate::io::write_trampoline;
use crate::io::AVInput;
use crate::io::AVOutput;
use crate::io::AVSeek;
use crate::io::SeekAction;
use crate::io::expected_seek_action;

verus! {

/// A demuxer descriptor: names an entry of the native input-format registry.
#[derive(Debug)]
pub struct InputFormat {
    name: String,
}

impl InputFormat {
    /// The registry name of the demuxer.
    pub closed spec fn name(&self) -> Seq<char> {
        self.name@
    }

    /// A descriptor for the demuxer registered under `name`.
    pub fn new(name: String) -> (f: InputFormat)
        ensures
            f.name() == name@,
    {
        InputFormat { name }
    }
}

/// A muxer descriptor: names an entry of the native output-format registry.
#[derive(Debug)]
pub struct OutputFormat {
    name: String,
}

impl OutputFormat {
    /// The registry name of the muxer.
    pub closed spec fn name(&self) -> Seq<char> {
        self.name@
    }

    /// A descriptor for the muxer registered under `name`.
    pub fn new(name: String) -> (f: OutputFormat)
        ensures
            f.name() == name@,
    {
        OutputFormat { name }
    }

    /// The registry name of the muxer, as an owned string.
    pub fn name_string(&self) -> (s: String)
        ensures
            s@ == self.name(),
    {
        self.name.clone()
    }
}

/// A format descriptor, for reading or for writing.
#[derive(Debug)]
pub enum Format {
    Input(InputFormat),
    Output(OutputFormat),
}

/// How bytes reach or leave a context: through a filesystem path the native
/// library opens itself, or through the custom byte-stream bridge.
#[derive(Clone, Copy, PartialEq, Eq, Structural, Debug)]
pub enum IoBinding {
    Path,
    Custom,
}

/// The statuses the native entry points reported while opening an input,
/// with the stream count the probe left in the context.
#[derive(Clone, Copy, PartialEq, Eq, Structural, Debug)]
pub struct InputEvents {
    /// What the native open entry point returned; zero is success.
    pub open_status: i32,
    /// What the stream-info probe returned; any non-negative value is
    /// success.
    pub probe_status: i32,
    /// The number of streams the probe found.
    pub streams: u32,
}

/// The statuses the native entry points reported while opening an output.
#[derive(Clone, Copy, PartialEq, Eq, Structural, Debug)]
pub struct OutputEvents {
    /// What the output-context allocation returned; zero is success.
    pub alloc_status: i32,
    /// What opening the byte sink returned; zero is success.
    pub io_status: i32,
}

/// The native statuses observed for one open request, input or output.
pub enum OpenEvents {
    Input(InputEvents),
    Output(OutputEvents),
}

/// The outcome the input protocol owes for the given native statuses: the
/// probed stream count when the open step returned zero and the probe was
/// non-negative, otherwise the first failing status, translated. The
/// outcome is a function of the native events alone — the byte binding does
/// not appear.
pub open spec fn input_outcome(ev: InputEvents) -> Result<u32, Error> {
    if ev.open_status != 0 {
        Err(Error::Native(ev.open_status))
    } else if ev.probe_status < 0 {
        Err(Error::Native(ev.probe_status))
    } else {
        Ok(ev.streams)
    }
}

/// The outcome the output protocol owes for the given native statuses:
/// success exactly when both the context allocation and the sink open
/// returned zero, otherwise the first failing status, translated.
pub open spec fn output_outcome(ev: OutputEvents) -> Result<(), Error> {
    if ev.alloc_status != 0 {
        Err(Error::Native(ev.alloc_status))
    } else if ev.io_status != 0 {
        Err(Error::Native(ev.io_status))
    } else {
        Ok(())
    }
}

/// An input open in progress: the native context is allocated and bound to
/// its byte transport; the open entry point's status is not yet checked.
#[derive(Debug)]
pub struct InputPending {
    binding: IoBinding,
}

/// The open entry point succeeded; the stream-info probe is not yet
/// checked.
#[derive(Debug)]
pub struct InputProbing {
    binding: IoBinding,
}

/// A probed demuxing context. A value of this type exists only after both
/// the open and the probe status checks passed.
#[derive(Debug)]
pub struct InputContext {
    binding: IoBinding,
    streams: u32,
}

impl InputPending {
    /// How this open's bytes are bound.
    pub closed spec fn binding(&self) -> IoBinding {
        self.binding
    }

    /// Start the input protocol over the given byte binding.
    pub fn bind(binding: IoBinding) -> (s: InputPending)
        ensures
            s.binding() == binding,
    {
        InputPending { binding }
    }

    /// Check the native open status: exactly zero is success; any other
    /// status aborts the protocol with that status translated.
    pub fn opened(self, status: i32) -> (r: Result<InputProbing, Error>)
        ensures
            r is Ok <==> status == 0,
            r matches Ok(s) ==> s.binding() == self.binding(),
            r matches Err(e) ==> e == Error::Native(status),
    {
        if status == 0 {
            Ok(InputProbing { binding: self.binding })
        } else {
            Err(Error::from_status(status))
        }
    }
}

impl InputProbing {
    /// How this open's bytes are bound.
    pub closed spec fn binding(&self) -> IoBinding {
        self.binding
    }

    /// Check the stream-info probe status: any non-negative value is
    /// success (unlike the open step, which succeeds only on exactly zero;
    /// the native probe's own contract). On success the context is ready,
    /// reporting the stream count the probe found.
    pub fn probed(self, status: i32, streams: u32) -> (r: Result<InputContext, Error>)
        ensures
            r is Ok <==> status >= 0,
            r matches Ok(c) ==> c.binding() == self.binding() && c.stream_count() == streams,
            r matches Err(e) ==> e == Error::Native(status),
    {
        if status >= 0 {
            Ok(InputContext { binding: self.binding, streams })
        } else {
            Err(Error::from_status(status))
        }
    }
}

impl InputContext {
    /// How this context's bytes are bound.
    pub closed spec fn binding(&self) -> IoBinding {
        self.binding
    }

    /// The stream count the probe found.
    pub closed spec fn stream_count(&self) -> u32 {
        self.streams
    }

    /// The number of streams the probe found in the container.
    pub fn streams(&self) -> (n: u32)
        ensures
            n == self.stream_count(),
    {
        self.streams
    }

    /// How this context's bytes are bound.
    pub fn io_binding(&self) -> (b: IoBinding)
        ensures
            b == self.binding(),
    {
        self.binding
    }
}

/// How the muxer was selected: left to the native library to infer from
/// the target path, or named explicitly. The two are mutually exclusive.
#[derive(Debug)]
pub enum MuxerSelection {
    FromPath,
    Named(String),
}

/// An output open in progress: the native output-context allocation's
/// status is not yet checked.
#[derive(Debug)]
pub struct OutputPending {
    binding: IoBinding,
    muxer: MuxerSelection,
}

/// The output context is allocated; the byte sink's open status is not yet
/// checked.
#[derive(Debug)]
pub struct OutputIoPending {
    binding: IoBinding,
    muxer: MuxerSelection,
}

/// A muxing context ready for writing. A value of this type exists only
/// after both the allocation and the sink-open status checks passed.
#[derive(Debug)]
pub struct OutputContext {
    binding: IoBinding,
    muxer: MuxerSelection,
}

impl OutputPending {
    /// How this open's bytes are bound.
    pub closed spec fn binding(&self) -> IoBinding {
        self.binding
    }

    /// How the muxer is selected.
    pub closed spec fn muxer(&self) -> MuxerSelection {
        self.muxer
    }

    /// Start the output protocol over the given byte binding and muxer
    /// selection.
    pub fn bind(binding: IoBinding, muxer: MuxerSelection) -> (s: OutputPending)
        ensures
            s.binding() == binding,
            s.muxer() == muxer,
    {
        OutputPending { binding, muxer }
    }

    /// Check the output-context allocation status: exactly zero is success.
    pub fn allocated(self, status: i32) -> (r: Result<OutputIoPending, Error>)
        ensures
            r is Ok <==> status == 0,
            r matches Ok(s) ==> s.binding() == self.binding() && s.muxer() == self.muxer(),
            r matches Err(e) ==> e == Error::Native(status),
    {
        if status == 0 {
            Ok(OutputIoPending { binding: self.binding, muxer: self.muxer })
        } else {
            Err(Error::from_status(status))
        }
    }
}

impl OutputIoPending {
    /// How this open's bytes are bound.
    pub closed spec fn binding(&self) -> IoBinding {
        self.binding
    }

    /// How the muxer is selected.
    pub closed spec fn muxer(&self) -> MuxerSelection {
        self.muxer
    }

    /// Check the byte sink's open status: exactly zero is success. On
    /// success the muxing context is ready.
    pub fn io_opened(self, status: i32) -> (r: Result<OutputContext, Error>)
        ensures
            r is Ok <==> status == 0,
            r matches Ok(c) ==> c.binding() == self.binding() && c.muxer() == self.muxer(),
            r matches Err(e) ==> e == Error::Native(status),
    {
        if status == 0 {
            Ok(OutputContext { binding: self.binding, muxer: self.muxer })
        } else {
            Err(Error::from_status(status))
        }
    }
}

impl OutputContext {
    /// How this context's bytes are bound.
    pub closed spec fn binding(&self) -> IoBinding {
        self.binding
    }

    /// How the muxer was selected.
    pub closed spec fn muxer(&self) -> MuxerSelection {
        self.muxer
    }

    /// How this context's bytes are bound.
    pub fn io_binding(&self) -> (b: IoBinding)
        ensures
            b == self.binding(),
    {
        self.binding
    }

    /// The explicitly named muxer, where one was named; the native library
    /// chose from the path otherwise.
    pub fn muxer_name(&self) -> (r: Option<&String>)
        ensures
            match self.muxer() {
                MuxerSelection::Named(n) => r matches Some(s) && s@ == n@,
                MuxerSelection::FromPath => r is None,
            },
    {
        match &self.muxer {
            MuxerSelection::Named(n) => Some(n),
            MuxerSelection::FromPath => None,
        }
    }
}

/// An opened container, reading or writing.
#[derive(Debug)]
pub enum Context {
    Input(InputContext),
    Output(OutputContext),
}

/// Open a container at a path with an explicit format descriptor: the input
/// protocol when the descriptor is a demuxer, the output protocol when it
/// is a muxer. The events must come from the matching native sequence.
pub fn open(format: &Format, events: &OpenEvents) -> (r: Result<Context, Error>)
    requires
        (*format matches Format::Input(_)) <==> (*events matches OpenEvents::Input(_)),
    ensures
        (*events matches OpenEvents::Input(ev) ==> (match input_outcome(ev) {
            Ok(n) => r matches Ok(c) && c matches Context::Input(ic) && ic.stream_count() == n
                && ic.binding() == IoBinding::Path,
            Err(e) => r matches Err(e2) && e2 == e,
        })),
        (*events matches OpenEvents::Output(ev) ==> (match output_outcome(ev) {
            Ok(u) => r matches Ok(c) && c matches Context::Output(oc) && oc.binding()
                == IoBinding::Path,
            Err(e) => r matches Err(e2) && e2 == e,
        })),
{
    match (format, events) {
        (Format::Input(_), OpenEvents::Input(ev)) => {
            match input(ev) {
                Ok(c) => Ok(Context::Input(c)),
                Err(e) => Err(e),
            }
        },
        (Format::Output(_), OpenEvents::Output(ev)) => {
            match output(ev) {
                Ok(c) => Ok(Context::Output(c)),
                Err(e) => Err(e),
            }
        },
        _ => {
            proof {
                assert(false);
            }
            Err(Error::Encoding)
        },
    }
}

/// As `open`, with an options dictionary lent to the native open call and
/// reclaimed before any status is inspected, on every path.
pub fn open_with(format: &Format, options: Dictionary, events: &OpenEvents) -> (r: (
    Result<Context, Error>,
    Dictionary,
))
    requires
        (*format matches Format::Input(_)) <==> (*events matches OpenEvents::Input(_)),
    ensures
        (*events matches OpenEvents::Input(ev) ==> (match input_outcome(ev) {
            Ok(n) => r.0 matches Ok(c) && c matches Context::Input(ic) && ic.stream_count() == n
                && ic.binding() == IoBinding::Path,
            Err(e) => r.0 matches Err(e2) && e2 == e,
        })),
        (*events matches OpenEvents::Output(ev) ==> (match output_outcome(ev) {
            Ok(u) => r.0 matches Ok(c) && c matches Context::Output(oc) && oc.binding()
                == IoBinding::Path,
            Err(e) => r.0 matches Err(e2) && e2 == e,
        })),
        r.1@ == options@,
{
    let lent = options.disown();
    let reclaimed = Dictionary::own(lent);
    let res = open(format, events);
    (res, reclaimed)
}

/// Open an input container at a path, letting the native library pick the
/// demuxer: check the open status (zero is success), then the probe status
/// (non-negative is success), and hand out a context only when both passed.
/// On failure the first failing status is returned, translated, and no
/// context exists.
pub fn input(ev: &InputEvents) -> (r: Result<InputContext, Error>)
    ensures
        r is Ok <==> input_outcome(*ev) is Ok,
        r matches Ok(c) ==> c.binding() == IoBinding::Path && (input_outcome(*ev) matches Ok(n)
            && c.stream_count() == n),
        r matches Err(e) ==> input_outcome(*ev) matches Err(e2) && e == e2,
{
    let pending = InputPending::bind(IoBinding::Path);
    match pending.opened(ev.open_status) {
        Ok(probing) => probing.probed(ev.probe_status, ev.streams),
        Err(e) => Err(e),
    }
}

/// As `input`, with an options dictionary lent to the native open call and
/// reclaimed before any status is inspected, on every path — the error path
/// included.
pub fn input_with(options: Dictionary, ev: &InputEvents) -> (r: (
    Result<InputContext, Error>,
    Dictionary,
))
    ensures
        r.0 is Ok <==> input_outcome(*ev) is Ok,
        r.0 matches Ok(c) ==> c.binding() == IoBinding::Path && (input_outcome(*ev) matches Ok(n)
            && c.stream_count() == n),
        r.0 matches Err(e) ==> input_outcome(*ev) matches Err(e2) && e == e2,
        r.1@ == options@,
{
    let lent = options.disown();
    let reclaimed = Dictionary::own(lent);
    let res = input(ev);
    (res, reclaimed)
}

/// The host side of a native custom-I/O object: the bridging buffer of the
/// resource's declared size, and the host resource itself, owned together
/// for the lifetime of the native object and released together.
pub struct IoBridge<R> {
    resource: R,
    buffer: Vec<u8>,
}

impl<R> IoBridge<R> {
    /// The host resource boxed into the bridge.
    pub closed spec fn resource(&self) -> R {
        self.resource
    }

    /// The bytes of the bridging buffer.
    pub closed spec fn buffer_bytes(&self) -> Seq<u8> {
        self.buffer@
    }

    /// The bridge is usable by the native callback protocol: the buffer is
    /// non-empty and its size is expressible as the native signed 32-bit
    /// count.
    pub closed spec fn wf(&self) -> bool {
        0 < self.buffer@.len() <= i32::MAX
    }

    /// The size of the bridging buffer.
    pub fn buffer_size_bytes(&self) -> (n: usize)
        ensures
            n == self.buffer_bytes().len(),
    {
        self.buffer.len()
    }

    /// The byte at `i` of the bridging buffer.
    pub fn buffer_byte(&self, i: usize) -> (b: u8)
        requires
            i < self.buffer_bytes().len(),
        ensures
            b == self.buffer_bytes()[i as int],
    {
        self.buffer[i]
    }

    /// Tear the bridge down: the buffer is released and the host resource
    /// is handed back to the caller. Nothing of the bridge outlives this.
    pub fn dismantle(self) -> (r: R)
        ensures
            r == self.resource(),
    {
        self.resource
    }
}

impl<I: AVInput> IoBridge<I> {
    /// The read callback against this bridge: ask the resource to fill the
    /// bridging buffer and report the count in the native protocol's terms.
    pub fn on_read(&mut self) -> (r: i32)
        requires
            old(self).wf(),
        ensures
            final(self).wf(),
            final(self).buffer_bytes().len() == old(self).buffer_bytes().len(),
            -1 <= r && r <= final(self).buffer_bytes().len(),
    {
        read_trampoline(&mut self.resource, &mut self.buffer)
    }
}

impl<S: AVSeek> IoBridge<S> {
    /// The seek callback against this bridge: decode, dispatch, encode, as
    /// `seek_trampoline` does; the buffer is untouched.
    pub fn on_seek(&mut self, offset: i64, whence: i32) -> (r: (i64, Ghost<SeekAction>))
        ensures
            final(self).buffer_bytes() == old(self).buffer_bytes(),
            r.1@ == expected_seek_action(offset, whence),
            r.0 >= -1,
    {
        seek_trampoline(&mut self.resource, offset, whence)
    }
}

impl<O: AVOutput> IoBridge<O> {
    /// The write callback against this bridge: hand `buf` to the sink and
    /// report the count in the native protocol's terms.
    pub fn on_write(&mut self, buf: &[u8]) -> (r: i32)
        requires
            buf@.len() <= i32::MAX,
        ensures
            final(self).buffer_bytes() == old(self).buffer_bytes(),
            -1 <= r && r <= buf@.len(),
    {
        write_trampoline(&mut self.resource, buf)
    }
}

/// A zero-filled vector of length `n`.
fn zeroed_buffer(n: usize) -> (v: Vec<u8>)
    ensures
        v@ == Seq::new(n as nat, |j: int| 0u8),
{
    let mut v: Vec<u8> = Vec::new();
    let mut i: usize = 0;
    while i < n
        invariant
            i <= n,
            v@ == Seq::new(i as nat, |j: int| 0u8),
        decreases n - i,
    {
        v.push(0u8);
        proof {
            assert(v@ =~= Seq::new((i + 1) as nat, |j: int| 0u8));
        }
        i = i + 1;
    }
    v
}

/// Build the custom-I/O bridge for a readable resource: allocate the
/// bridging buffer of the size the resource declares and move the resource
/// in; buffer and resource now live and die with the bridge.
pub fn input_into_context<I: AVInput>(input: I) -> (b: IoBridge<I>)
    ensures
        b.resource() == input,
        b.wf(),
{
    let n: i32 = <I as AVInput>::buffer_size();
    let buffer = zeroed_buffer(n as usize);
    IoBridge { resource: input, buffer }
}

/// Build the custom-I/O bridge for a writable sink, as `input_into_context`
/// does for a source.
pub fn output_into_context<O: AVOutput>(sink: O) -> (b: IoBridge<O>)
    ensures
        b.resource() == sink,
        b.wf(),
{
    let n: i32 = <O as AVOutput>::buffer_size();
    let buffer = zeroed_buffer(n as usize);
    IoBridge { resource: sink, buffer }
}

/// Open an input through the custom-I/O bridge instead of a path: the same
/// open and probe checks as `input`, over a context bound to the bridge
/// built from `source`. On success the context and the bridge are handed
/// out together; on failure the bridge is torn down with the native context
/// and only the error remains.
pub fn input_io<I: AVInput>(source: I, ev: &InputEvents) -> (r: Result<
    (InputContext, IoBridge<I>),
    Error,
>)
    ensures
        r is Ok <==> input_outcome(*ev) is Ok,
        r matches Ok(p) ==> p.0.binding() == IoBinding::Custom && (input_outcome(*ev) matches Ok(
        n) && p.0.stream_count() == n) && p.1.wf() && p.1.resource() == source,
        r matches Err(e) ==> input_outcome(*ev) matches Err(e2) && e == e2,
{
    let bridge = input_into_context(source);
    let pending = InputPending::bind(IoBinding::Custom);
    match pending.opened(ev.open_status) {
        Ok(probing) => {
            match probing.probed(ev.probe_status, ev.streams) {
                Ok(c) => Ok((c, bridge)),
                Err(e) => Err(e),
            }
        },
        Err(e) => Err(e),
    }
}

/// Open an output container at a path, letting the native library pick the
/// muxer from the path: check the allocation status, then the status of
/// opening the write sink, each succeeding only on exactly zero.
pub fn output(ev: &OutputEvents) -> (r: Result<OutputContext, Error>)
    ensures
        r is Ok <==> output_outcome(*ev) is Ok,
        r matches Ok(c) ==> c.binding() == IoBinding::Path && c.muxer() == MuxerSelection::FromPath,
        r matches Err(e) ==> output_outcome(*ev) matches Err(e2) && e == e2,
{
    let pending = OutputPending::bind(IoBinding::Path, MuxerSelection::FromPath);
    match pending.allocated(ev.alloc_status) {
        Ok(io_pending) => io_pending.io_opened(ev.io_status),
        Err(e) => Err(e),
    }
}

/// As `output`, with an options dictionary lent to the native sink-open
/// call and reclaimed before any status is inspected, on every path.
pub fn output_with(options: Dictionary, ev: &OutputEvents) -> (r: (
    Result<OutputContext, Error>,
    Dictionary,
))
    ensures
        r.0 is Ok <==> output_outcome(*ev) is Ok,
        r.0 matches Ok(c) ==> c.binding() == IoBinding::Path && c.muxer()
            == MuxerSelection::FromPath,
        r.0 matches Err(e) ==> output_outcome(*ev) matches Err(e2) && e == e2,
        r.1@ == options@,
{
    let lent = options.disown();
    let reclaimed = Dictionary::own(lent);
    let res = output(ev);
    (res, reclaimed)
}

/// Open an output container selecting the muxer by explicit format name
/// instead of by path (the two selections are mutually exclusive). The
/// status checks are those of `output`.
pub fn output_as(format: &OutputFormat, ev: &OutputEvents) -> (r: Result<OutputContext, Error>)
    ensures
        r is Ok <==> output_outcome(*ev) is Ok,
        r matches Ok(c) ==> c.binding() == IoBinding::Path && (c.muxer() matches
            MuxerSelection::Named(n) && n@ == format.name()),
        r matches Err(e) ==> output_outcome(*ev) matches Err(e2) && e == e2,
{
    let pending = OutputPending::bind(IoBinding::Path, MuxerSelection::Named(format.name_string()));
    match pending.allocated(ev.alloc_status) {
        Ok(io_pending) => io_pending.io_opened(ev.io_status),
        Err(e) => Err(e),
    }
}

/// As `output_as`, with an options dictionary lent to the native sink-open
/// call and reclaimed before any status is inspected, on every path.
pub fn output_as_with(format: &OutputFormat, options: Dictionary, ev: &OutputEvents) -> (r: (
    Result<OutputContext, Error>,
    Dictionary,
))
    ensures
        r.0 is Ok <==> output_outcome(*ev) is Ok,
        r.0 matches Ok(c) ==> c.binding() == IoBinding::Path && (c.muxer() matches
            MuxerSelection::Named(n) && n@ == format.name()),
        r.0 matches Err(e) ==> output_outcome(*ev) matches Err(e2) && e == e2,
        r.1@ == options@,
{
    let lent = options.disown();
    let reclaimed = Dictionary::own(lent);
    let res = output_as(format, ev);
    (res, reclaimed)
}

/// Open an output through the custom-I/O bridge: the muxer is selected by
/// explicit format name and the bytes go to the bridged sink.
pub fn output_io<O: AVOutput>(sink: O, format: &OutputFormat, ev: &OutputEvents) -> (r: Result<
    (OutputContext, IoBridge<O>),
    Error,
>)
    ensures
        r is Ok <==> output_outcome(*ev) is Ok,
        r matches Ok(p) ==> p.0.binding() == IoBinding::Custom && (p.0.muxer() matches
            MuxerSelection::Named(n) && n@ == format.name()) && p.1.wf() && p.1.resource()
            == sink,
        r matches Err(e) ==> output_outcome(*ev) matches Err(e2) && e == e2,
{
    let bridge = output_into_context(sink);
    let pending = OutputPending::bind(IoBinding::Custom, MuxerSelection::Named(format.name_string()));
    match pending.allocated(ev.alloc_status) {
        Ok(io_pending) => {
            match io_pending.io_opened(ev.io_status) {
                Ok(c) => Ok((c, bridge)),
                Err(e) => Err(e),
            }
        },
        Err(e) => Err(e),
    }
}

/// Probing is binding-independent: when the path-based open and the
/// custom-I/O open observe the same native events and those events are a
/// success, the two contexts report the same stream count — the outcome is
/// a function of the native events alone, which is what the contracts of
/// `input` and `input_io` tie their results to.
pub proof fn lemma_binding_independent_probe(
    ev: InputEvents,
    c_path: InputContext,
    c_custom: InputContext,
)
    requires
        input_outcome(ev) is Ok,
        input_outcome(ev) matches Ok(n) ==> c_path.stream_count() == n && c_custom.stream_count()
            == n,
    ensures
        c_path.stream_count() == c_custom.stream_count(),
{
}

} // verus!
