//! The terminal attribute block and the transformation into raw serial mode.
use vstd::prelude::*;

verus! {

// Control-mode flags (Linux values).
pub const CSIZE: u32 = 0o000060;
pub const CS8: u32 = 0o000060;
pub const CSTOPB: u32 = 0o000100;
pub const CREAD: u32 = 0o000200;
pub const PARENB: u32 = 0o000400;
pub const CLOCAL: u32 = 0o004000;
pub const CRTSCTS: u32 = 0o20000000000;

// Local-mode flags.
pub const ISIG: u32 = 0o000001;
pub const ICANON: u32 = 0o000002;
pub const ECHO: u32 = 0o000010;
pub const ECHOE: u32 = 0o000020;
pub const ECHONL: u32 = 0o000100;

// Input-mode flags.
pub const IGNBRK: u32 = 0o000001;
pub const BRKINT: u32 = 0o000002;
pub const PARMRK: u32 = 0o000010;
pub const ISTRIP: u32 = 0o000040;
pub const INLCR: u32 = 0o000100;
pub const IGNCR: u32 = 0o000200;
pub const ICRNL: u32 = 0o000400;
pub const IXON: u32 = 0o002000;
pub const IXANY: u32 = 0o004000;
pub const IXOFF: u32 = 0o010000;
pub const IUTF8: u32 = 0o040000;

// Output-mode flags.
pub const OPOST: u32 = 0o000001;
pub const ONLCR: u32 = 0o000004;

/// Speed code for 115200 baud.
pub const B115200: u32 = 0o010002;

/// The three echo flags of the local modes.
pub const ECHO_GROUP: u32 = ECHO | ECHOE | ECHONL;

/// Software flow control.
pub const SOFT_FLOW: u32 = IXON | IXOFF | IXANY;

/// Special handling of input bytes.
pub const SPECIAL_INPUT: u32 = IGNBRK | BRKINT | PARMRK | ISTRIP | INLCR | IGNCR | ICRNL;

/// A terminal attribute block: the four flag words and the output speed code.
#[derive(Clone, Copy, Debug, PartialEq, Eq, Structural)]
pub struct TermAttrs {
    pub iflag: u32,
    pub oflag: u32,
    pub cflag: u32,
    pub lflag: u32,
    pub ospeed: u32,
}

/// What the raw-mode transformation is asked for.
#[derive(Clone, Copy, Debug, PartialEq, Eq, Structural)]
pub struct LinkConfig {
    /// Output speed code to commit.
    pub baud: u32,
    /// When false, the echo flags are cleared; when true they are left alone.
    pub echo_enabled: bool,
    /// Whether the receiver is switched on.
    pub receive_enabled: bool,
}

pub open spec fn has(word: u32, flag: u32) -> bool {
    word & flag == flag
}

pub open spec fn lacks(word: u32, flag: u32) -> bool {
    word & flag == 0
}

/// The control word in raw mode: no parity, one stop bit, 8-bit characters,
/// no hardware flow control, modem lines ignored, receiver as configured.
pub open spec fn raw_cflag(c: u32, receive_enabled: bool) -> u32 {
    let base = (c & !(PARENB | CSTOPB | CSIZE | CRTSCTS)) | CS8 | CLOCAL;
    if receive_enabled {
        base | CREAD
    } else {
        base & !CREAD
    }
}

/// The local word in raw mode: no canonical input, no signal characters, and
/// the echo group cleared unless echo is kept.
pub open spec fn raw_lflag(l: u32, echo_enabled: bool) -> u32 {
    let base = l & !(ICANON | ISIG);
    if echo_enabled {
        base
    } else {
        base & !ECHO_GROUP
    }
}

/// The input word in raw mode: no software flow control, no special byte
/// handling, UTF-8 input.
pub open spec fn raw_iflag(i: u32) -> u32 {
    (i & !(SOFT_FLOW | SPECIAL_INPUT)) | IUTF8
}

/// The output word in raw mode: no post-processing, no newline translation.
pub open spec fn raw_oflag(o: u32) -> u32 {
    o & !(OPOST | ONLCR)
}

/// The raw-mode block made from `a` under `cfg`.
pub open spec fn raw_attrs(a: TermAttrs, cfg: LinkConfig) -> TermAttrs {
    TermAttrs {
        iflag: raw_iflag(a.iflag),
        oflag: raw_oflag(a.oflag),
        cflag: raw_cflag(a.cflag, cfg.receive_enabled),
        lflag: raw_lflag(a.lflag, cfg.echo_enabled),
        ospeed: cfg.baud,
    }
}

/// What characterises raw serial mode.
pub open spec fn is_raw(a: TermAttrs) -> bool {
    &&& lacks(a.cflag, PARENB)
    &&& lacks(a.cflag, CSTOPB)
    &&& a.cflag & CSIZE == CS8
    &&& lacks(a.lflag, ICANON)
    &&& lacks(a.lflag, ISIG)
    &&& lacks(a.oflag, OPOST)
    &&& lacks(a.oflag, ONLCR)
}

impl TermAttrs {
    /// Parity, stop bits, character size, flow control and line ownership.
    pub fn init_ctrl(&mut self, receive_enabled: bool)
        ensures
            final(self).cflag == raw_cflag(old(self).cflag, receive_enabled),
            final(self).iflag == old(self).iflag,
            final(self).oflag == old(self).oflag,
            final(self).lflag == old(self).lflag,
            final(self).ospeed == old(self).ospeed,
    {
        let c0 = self.cflag;
        let mut c = c0;
        c = c & !PARENB;
        c = c & !CSTOPB;
        c = c & !CSIZE;
        c = c | CS8;
        c = c & !CRTSCTS;
        c = c | CLOCAL;
        if receive_enabled {
            c = c | CREAD;
        } else {
            c = c & !CREAD;
        }
        assert(c == raw_cflag(c0, receive_enabled)) by (bit_vector)
            requires
                receive_enabled ==> c == ((((((c0 & !PARENB) & !CSTOPB) & !CSIZE) | CS8)
                    & !CRTSCTS) | CLOCAL) | CREAD,
                !receive_enabled ==> c == ((((((c0 & !PARENB) & !CSTOPB) & !CSIZE) | CS8)
                    & !CRTSCTS) | CLOCAL) & !CREAD,
        ;
        self.cflag = c;
    }

    /// Clears echo, echo-erase and echo-newline.
    pub fn disable_echo(&mut self)
        ensures
            final(self).lflag == old(self).lflag & !ECHO_GROUP,
            final(self).iflag == old(self).iflag,
            final(self).oflag == old(self).oflag,
            final(self).cflag == old(self).cflag,
            final(self).ospeed == old(self).ospeed,
    {
        let l0 = self.lflag;
        let l = ((l0 & !ECHO) & !ECHOE) & !ECHONL;
        assert(l == l0 & !ECHO_GROUP) by (bit_vector)
            requires
                l == ((l0 & !ECHO) & !ECHOE) & !ECHONL,
        ;
        self.lflag = l;
    }

    /// Line discipline: raw input, no signal characters, echo as asked.
    pub fn init_local(&mut self, echo_enabled: bool)
        ensures
            final(self).lflag == raw_lflag(old(self).lflag, echo_enabled),
            final(self).iflag == old(self).iflag,
            final(self).oflag == old(self).oflag,
            final(self).cflag == old(self).cflag,
            final(self).ospeed == old(self).ospeed,
    {
        let l0 = self.lflag;
        self.lflag = self.lflag & !ICANON;
        if !echo_enabled {
            self.disable_echo();
        }
        self.lflag = self.lflag & !ISIG;
        let l = self.lflag;
        assert(l == raw_lflag(l0, echo_enabled)) by (bit_vector)
            requires
                echo_enabled ==> l == (l0 & !ICANON) & !ISIG,
                !echo_enabled ==> l == ((l0 & !ICANON) & !ECHO_GROUP) & !ISIG,
        ;
    }

    /// Input processing: no software flow control, no special bytes, UTF-8.
    pub fn init_input_modes(&mut self)
        ensures
            final(self).iflag == raw_iflag(old(self).iflag),
            final(self).oflag == old(self).oflag,
            final(self).cflag == old(self).cflag,
            final(self).lflag == old(self).lflag,
            final(self).ospeed == old(self).ospeed,
    {
        let i0 = self.iflag;
        let i = ((i0 & !SOFT_FLOW) & !SPECIAL_INPUT) | IUTF8;
        assert(i == raw_iflag(i0)) by (bit_vector)
            requires
                i == ((i0 & !SOFT_FLOW) & !SPECIAL_INPUT) | IUTF8,
        ;
        self.iflag = i;
    }

    /// Output processing: no post-processing, no newline translation.
    pub fn init_ouput_modes(&mut self)
        ensures
            final(self).oflag == raw_oflag(old(self).oflag),
            final(self).iflag == old(self).iflag,
            final(self).cflag == old(self).cflag,
            final(self).lflag == old(self).lflag,
            final(self).ospeed == old(self).ospeed,
    {
        let o0 = self.oflag;
        let o = (o0 & !OPOST) & !ONLCR;
        assert(o == raw_oflag(o0)) by (bit_vector)
            requires
                o == (o0 & !OPOST) & !ONLCR,
        ;
        self.oflag = o;
    }

    /// Turns this block into its raw-mode form under `cfg`.
    pub fn make_raw(&mut self, cfg: &LinkConfig)
        ensures
            *final(self) == raw_attrs(*old(self), *cfg),
    {
        self.init_ctrl(cfg.receive_enabled);
        self.init_local(cfg.echo_enabled);
        self.init_input_modes();
        self.init_ouput_modes();
        self.ospeed = cfg.baud;
    }
}

/// The raw-mode transformation is idempotent: applying it to its own result
/// changes nothing.
pub proof fn raw_attrs_idempotent(a: TermAttrs, cfg: LinkConfig)
    ensures
        raw_attrs(raw_attrs(a, cfg), cfg) == raw_attrs(a, cfg),
{
    let (i, o, c, l) = (a.iflag, a.oflag, a.cflag, a.lflag);
    let (re, ee) = (cfg.receive_enabled, cfg.echo_enabled);
    assert(raw_iflag(raw_iflag(i)) == raw_iflag(i)) by (bit_vector);
    assert(raw_oflag(raw_oflag(o)) == raw_oflag(o)) by (bit_vector);
    assert(raw_cflag(raw_cflag(c, re), re) == raw_cflag(c, re)) by (bit_vector);
    assert(raw_lflag(raw_lflag(l, ee), ee) == raw_lflag(l, ee)) by (bit_vector);
}

/// Every block comes out of the transformation in raw mode, whatever it held.
pub proof fn raw_attrs_is_raw(a: TermAttrs, cfg: LinkConfig)
    ensures
        is_raw(raw_attrs(a, cfg)),
{
    let (o, c, l) = (a.oflag, a.cflag, a.lflag);
    let (re, ee) = (cfg.receive_enabled, cfg.echo_enabled);
    assert(raw_cflag(c, re) & PARENB == 0) by (bit_vector);
    assert(raw_cflag(c, re) & CSTOPB == 0) by (bit_vector);
    assert(raw_cflag(c, re) & CSIZE == CS8) by (bit_vector);
    assert(raw_lflag(l, ee) & ICANON == 0) by (bit_vector);
    assert(raw_lflag(l, ee) & ISIG == 0) by (bit_vector);
    assert(raw_oflag(o) & OPOST == 0) by (bit_vector);
    assert(raw_oflag(o) & ONLCR == 0) by (bit_vector);
}

/// With echo disabled the three echo flags come out clear; with echo enabled
/// they come out exactly as they went in.
pub proof fn raw_attrs_echo_group(a: TermAttrs, cfg: LinkConfig)
    ensures
        !cfg.echo_enabled ==> {
            let l = raw_attrs(a, cfg).lflag;
            &&& lacks(l, ECHO)
            &&& lacks(l, ECHOE)
            &&& lacks(l, ECHONL)
        },
        cfg.echo_enabled ==> raw_attrs(a, cfg).lflag & ECHO_GROUP == a.lflag & ECHO_GROUP,
{
    let l = a.lflag;
    assert(raw_lflag(l, false) & ECHO == 0) by (bit_vector);
    assert(raw_lflag(l, false) & ECHOE == 0) by (bit_vector);
    assert(raw_lflag(l, false) & ECHONL == 0) by (bit_vector);
    assert(raw_lflag(l, true) & ECHO_GROUP == l & ECHO_GROUP) by (bit_vector);
}

} // verus!
