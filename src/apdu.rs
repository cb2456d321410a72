//! Short command APDUs for the smart-card signer, and its responses.
use vstd::prelude::*;
use crate::error::ProtocolError;

verus! {

/// First byte of the status word of a successful card response.
pub const SW_OK_HIGH: u8 = 0x90;
/// Second byte of the status word of a successful card response.
pub const SW_OK_LOW: u8 = 0x00;

/// A short command APDU: the four header bytes, then, when there is a body,
/// its length and the body.
pub open spec fn command_bytes(cla: u8, ins: u8, p1: u8, p2: u8, data: Seq<u8>) -> Seq<u8> {
    if data.len() == 0 {
        seq![cla, ins, p1, p2]
    } else {
        seq![cla, ins, p1, p2, data.len() as u8] + data
    }
}

/// The body of a response whose status word is success, else `None`.
pub open spec fn response_body(raw: Seq<u8>) -> Option<Seq<u8>> {
    if raw.len() >= 2 && raw[raw.len() - 2] == SW_OK_HIGH && raw[raw.len() - 1] == SW_OK_LOW {
        Some(raw.take(raw.len() - 2))
    } else {
        None
    }
}

/// Builds a command APDU field by field.
pub struct CommandBuilder {
    pub cla: u8,
    pub ins: u8,
    pub p1: u8,
    pub p2: u8,
    pub data: Vec<u8>,
}

impl CommandBuilder {
    /// A command of class `cla` and instruction `ins`, with zero parameters
    /// and no body.
    pub fn new(cla: u8, ins: u8) -> (r: Self)
        ensures
            r.cla == cla && r.ins == ins && r.p1 == 0 && r.p2 == 0 && r.data@ == Seq::<u8>::empty(),
    {
        CommandBuilder { cla, ins, p1: 0, p2: 0, data: Vec::new() }
    }

    /// Sets the first parameter.
    pub fn p1(self, p1: u8) -> (r: Self)
        ensures
            r == (CommandBuilder { p1, ..self }),
    {
        CommandBuilder { p1, ..self }
    }

    /// Sets the second parameter.
    pub fn p2(self, p2: u8) -> (r: Self)
        ensures
            r == (CommandBuilder { p2, ..self }),
    {
        CommandBuilder { p2, ..self }
    }

    /// Appends one byte to the body.
    pub fn push(self, b: u8) -> (r: Self)
        ensures
            r.cla == self.cla && r.ins == self.ins && r.p1 == self.p1 && r.p2 == self.p2,
            r.data@ == self.data@.push(b),
    {
        let mut s = self;
        s.data.push(b);
        s
    }

    /// Appends bytes to the body.
    pub fn extend(self, bytes: &[u8]) -> (r: Self)
        ensures
            r.cla == self.cla && r.ins == self.ins && r.p1 == self.p1 && r.p2 == self.p2,
            r.data@ == self.data@ + bytes@,
    {
        let mut s = self;
        let mut i: usize = 0;
        while i < bytes.len()
            invariant
                i <= bytes@.len(),
                s.cla == self.cla && s.ins == self.ins && s.p1 == self.p1 && s.p2 == self.p2,
                s.data@ == self.data@ + bytes@.take(i as int),
            decreases bytes@.len() - i,
        {
            s.data.push(bytes[i]);
            assert(s.data@ =~= self.data@ + bytes@.take(i + 1));
            i = i + 1;
        }
        assert(bytes@.take(i as int) =~= bytes@);
        s
    }

    /// The command's bytes. A short APDU carries at most 255 body bytes.
    pub fn build(&self) -> (r: Vec<u8>)
        requires
            self.data@.len() <= 255,
        ensures
            r@ == command_bytes(self.cla, self.ins, self.p1, self.p2, self.data@),
    {
        let mut r: Vec<u8> = vec![self.cla, self.ins, self.p1, self.p2];
        if self.data.len() > 0 {
            r.push(self.data.len() as u8);
            let mut i: usize = 0;
            while i < self.data.len()
                invariant
                    i <= self.data@.len(),
                    self.data@.len() <= 255,
                    r@ == seq![self.cla, self.ins, self.p1, self.p2, self.data@.len() as u8] + self.data@.take(i as int),
                decreases self.data@.len() - i,
            {
                r.push(self.data[i]);
                assert(r@ =~= seq![self.cla, self.ins, self.p1, self.p2, self.data@.len() as u8] + self.data@.take(i + 1));
                i = i + 1;
            }
            assert(self.data@.take(i as int) =~= self.data@);
        } else {
            assert(r@ =~= seq![self.cla, self.ins, self.p1, self.p2]);
        }
        r
    }
}

/// The body of a card response, after checking that its status word is success.
pub fn parse_response(raw: &[u8]) -> (r: Result<Vec<u8>, ProtocolError>)
    ensures
        match response_body(raw@) {
            Some(body) => r matches Ok(v) && v@ == body,
            None => r == Err::<Vec<u8>, ProtocolError>(ProtocolError::CardError),
        },
{
    let n = raw.len();
    if n < 2 || raw[n - 2] != SW_OK_HIGH || raw[n - 1] != SW_OK_LOW {
        return Err(ProtocolError::CardError);
    }
    let mut v: Vec<u8> = Vec::new();
    let mut i: usize = 0;
    while i < n - 2
        invariant
            n == raw@.len(),
            n >= 2,
            i <= n - 2,
            v@ == raw@.take(i as int),
        decreases n - 2 - i,
    {
        v.push(raw[i]);
        assert(v@ =~= raw@.take(i + 1));
        i = i + 1;
    }
    Ok(v)
}

} // verus!
