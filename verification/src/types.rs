use vstd::prelude::*;

use crate::errors::{MarshalError, TssError, TssResult};
use crate::marshal::{
    be_u16, be_u32, from_be_u16, from_be_u32, lemma_be_u16_roundtrip, lemma_be_u32_roundtrip,
    Marshalable, UnmarshalBuf,
};

verus! {

/// A TPM command code (`TPM_CC`), for the commands this client names.
#[derive(Debug, Clone, Copy, PartialEq, Eq, Structural)]
pub enum TpmCc {
    ActivateCredential,
    Create,
    CreateLoaded,
    CreatePrimary,
    GetRandom,
    Load,
    LoadExternal,
    MakeCredential,
    ObjectChangeAuth,
    ReadPublic,
    StartAuthSession,
    Unseal,
}

impl View for TpmCc {
    type V = TpmCc;

    open spec fn view(&self) -> TpmCc {
        *self
    }
}

impl TpmCc {
    /// The code's value on the wire.
    pub open spec fn spec_value(self) -> u32 {
        match self {
            TpmCc::ActivateCredential => 0x147,
            TpmCc::Create => 0x153,
            TpmCc::CreateLoaded => 0x191,
            TpmCc::CreatePrimary => 0x131,
            TpmCc::GetRandom => 0x17b,
            TpmCc::Load => 0x157,
            TpmCc::LoadExternal => 0x167,
            TpmCc::MakeCredential => 0x168,
            TpmCc::ObjectChangeAuth => 0x150,
            TpmCc::ReadPublic => 0x173,
            TpmCc::StartAuthSession => 0x176,
            TpmCc::Unseal => 0x15e,
        }
    }

    /// The command code with a given value, if there is one.
    pub open spec fn spec_from_value(v: u32) -> Option<TpmCc> {
        if v == 0x147 {
            Some(TpmCc::ActivateCredential)
        } else if v == 0x153 {
            Some(TpmCc::Create)
        } else if v == 0x191 {
            Some(TpmCc::CreateLoaded)
        } else if v == 0x131 {
            Some(TpmCc::CreatePrimary)
        } else if v == 0x17b {
            Some(TpmCc::GetRandom)
        } else if v == 0x157 {
            Some(TpmCc::Load)
        } else if v == 0x167 {
            Some(TpmCc::LoadExternal)
        } else if v == 0x168 {
            Some(TpmCc::MakeCredential)
        } else if v == 0x150 {
            Some(TpmCc::ObjectChangeAuth)
        } else if v == 0x173 {
            Some(TpmCc::ReadPublic)
        } else if v == 0x176 {
            Some(TpmCc::StartAuthSession)
        } else if v == 0x15e {
            Some(TpmCc::Unseal)
        } else {
            None
        }
    }

    pub fn value(&self) -> (v: u32)
        ensures
            v == self.spec_value(),
    {
        match self {
            TpmCc::ActivateCredential => 0x147,
            TpmCc::Create => 0x153,
            TpmCc::CreateLoaded => 0x191,
            TpmCc::CreatePrimary => 0x131,
            TpmCc::GetRandom => 0x17b,
            TpmCc::Load => 0x157,
            TpmCc::LoadExternal => 0x167,
            TpmCc::MakeCredential => 0x168,
            TpmCc::ObjectChangeAuth => 0x150,
            TpmCc::ReadPublic => 0x173,
            TpmCc::StartAuthSession => 0x176,
            TpmCc::Unseal => 0x15e,
        }
    }

    pub fn from_value(v: u32) -> (r: Option<TpmCc>)
        ensures
            r == Self::spec_from_value(v),
    {
        if v == 0x147 {
            Some(TpmCc::ActivateCredential)
        } else if v == 0x153 {
            Some(TpmCc::Create)
        } else if v == 0x191 {
            Some(TpmCc::CreateLoaded)
        } else if v == 0x131 {
            Some(TpmCc::CreatePrimary)
        } else if v == 0x17b {
            Some(TpmCc::GetRandom)
        } else if v == 0x157 {
            Some(TpmCc::Load)
        } else if v == 0x167 {
            Some(TpmCc::LoadExternal)
        } else if v == 0x168 {
            Some(TpmCc::MakeCredential)
        } else if v == 0x150 {
            Some(TpmCc::ObjectChangeAuth)
        } else if v == 0x173 {
            Some(TpmCc::ReadPublic)
        } else if v == 0x176 {
            Some(TpmCc::StartAuthSession)
        } else if v == 0x15e {
            Some(TpmCc::Unseal)
        } else {
            None
        }
    }

    /// The values of the codes and the codes of the values agree.
    pub proof fn lemma_value_roundtrip(self, v: u32)
        ensures
            Self::spec_from_value(self.spec_value()) == Some(self),
            Self::spec_from_value(v) matches Some(c) ==> c.spec_value() == v,
    {
    }
}

impl Marshalable for TpmCc {
    open spec fn spec_wf(v: TpmCc) -> bool {
        true
    }

    open spec fn spec_marshal(v: TpmCc) -> Seq<u8> {
        be_u32(v.spec_value())
    }

    open spec fn spec_unmarshal(s: Seq<u8>) -> Result<(TpmCc, int), MarshalError> {
        if s.len() < 4 {
            Err(MarshalError::Insufficient)
        } else {
            match TpmCc::spec_from_value(from_be_u32(s)) {
                Some(c) => Ok((c, 4)),
                None => Err(MarshalError::Value),
            }
        }
    }

    proof fn lemma_unmarshal_marshal(v: TpmCc, rest: Seq<u8>) {
        lemma_be_u32_roundtrip(v.spec_value(), rest);
        v.lemma_value_roundtrip(0);
    }

    proof fn lemma_marshal_unmarshal(s: Seq<u8>) {
        lemma_be_u32_roundtrip(0, s);
        TpmCc::CreatePrimary.lemma_value_roundtrip(from_be_u32(s));
    }

    fn marshal(&self, out: &mut Vec<u8>) {
        self.value().marshal(out);
        assert(out@ == old(out)@ + Self::spec_marshal(self@));
        assert(Self::spec_wf(self@));
    }

    fn try_unmarshal(buf: &mut UnmarshalBuf) -> (r: TssResult<TpmCc>) {
        let v = u32::try_unmarshal(buf)?;
        match TpmCc::from_value(v) {
            Some(c) => Ok(c),
            None => Err(TssError::Marshal(MarshalError::Value)),
        }
    }
}

/// The tag of a command (`TPMI_ST_COMMAND_TAG`): whether it carries an
/// authorization area.
#[derive(Debug, Clone, Copy, PartialEq, Eq, Structural)]
pub enum TpmiStCommandTag {
    NoSessions,
    Sessions,
}

impl View for TpmiStCommandTag {
    type V = TpmiStCommandTag;

    open spec fn view(&self) -> TpmiStCommandTag {
        *self
    }
}

impl TpmiStCommandTag {
    pub open spec fn spec_value(self) -> u16 {
        match self {
            TpmiStCommandTag::NoSessions => 0x8001,
            TpmiStCommandTag::Sessions => 0x8002,
        }
    }

    pub fn value(&self) -> (v: u16)
        ensures
            v == self.spec_value(),
    {
        match self {
            TpmiStCommandTag::NoSessions => 0x8001,
            TpmiStCommandTag::Sessions => 0x8002,
        }
    }
}

impl Marshalable for TpmiStCommandTag {
    open spec fn spec_wf(v: TpmiStCommandTag) -> bool {
        true
    }

    open spec fn spec_marshal(v: TpmiStCommandTag) -> Seq<u8> {
        be_u16(v.spec_value())
    }

    open spec fn spec_unmarshal(s: Seq<u8>) -> Result<(TpmiStCommandTag, int), MarshalError> {
        if s.len() < 2 {
            Err(MarshalError::Insufficient)
        } else if from_be_u16(s) == 0x8001 {
            Ok((TpmiStCommandTag::NoSessions, 2))
        } else if from_be_u16(s) == 0x8002 {
            Ok((TpmiStCommandTag::Sessions, 2))
        } else {
            Err(MarshalError::Value)
        }
    }

    proof fn lemma_unmarshal_marshal(v: TpmiStCommandTag, rest: Seq<u8>) {
        lemma_be_u16_roundtrip(v.spec_value(), rest);
    }

    proof fn lemma_marshal_unmarshal(s: Seq<u8>) {
        lemma_be_u16_roundtrip(0, s);
    }

    fn marshal(&self, out: &mut Vec<u8>) {
        self.value().marshal(out);
        assert(out@ == old(out)@ + Self::spec_marshal(self@));
        assert(Self::spec_wf(self@));
    }

    fn try_unmarshal(buf: &mut UnmarshalBuf) -> (r: TssResult<TpmiStCommandTag>) {
        let v = u16::try_unmarshal(buf)?;
        if v == 0x8001 {
            Ok(TpmiStCommandTag::NoSessions)
        } else if v == 0x8002 {
            Ok(TpmiStCommandTag::Sessions)
        } else {
            Err(TssError::Marshal(MarshalError::Value))
        }
    }
}

/// A structure tag (`TPM_ST`), for the tags that a response header can carry.
#[derive(Debug, Clone, Copy, PartialEq, Eq, Structural)]
pub enum TpmSt {
    RspCommand,
    Null,
    NoSessions,
    Sessions,
}

impl View for TpmSt {
    type V = TpmSt;

    open spec fn view(&self) -> TpmSt {
        *self
    }
}

impl TpmSt {
    pub open spec fn spec_value(self) -> u16 {
        match self {
            TpmSt::RspCommand => 0x00c4,
            TpmSt::Null => 0x8000,
            TpmSt::NoSessions => 0x8001,
            TpmSt::Sessions => 0x8002,
        }
    }

    pub open spec fn spec_from_value(v: u16) -> Option<TpmSt> {
        if v == 0x00c4 {
            Some(TpmSt::RspCommand)
        } else if v == 0x8000 {
            Some(TpmSt::Null)
        } else if v == 0x8001 {
            Some(TpmSt::NoSessions)
        } else if v == 0x8002 {
            Some(TpmSt::Sessions)
        } else {
            None
        }
    }

    pub fn value(&self) -> (v: u16)
        ensures
            v == self.spec_value(),
    {
        match self {
            TpmSt::RspCommand => 0x00c4,
            TpmSt::Null => 0x8000,
            TpmSt::NoSessions => 0x8001,
            TpmSt::Sessions => 0x8002,
        }
    }

    pub fn from_value(v: u16) -> (r: Option<TpmSt>)
        ensures
            r == Self::spec_from_value(v),
    {
        if v == 0x00c4 {
            Some(TpmSt::RspCommand)
        } else if v == 0x8000 {
            Some(TpmSt::Null)
        } else if v == 0x8001 {
            Some(TpmSt::NoSessions)
        } else if v == 0x8002 {
            Some(TpmSt::Sessions)
        } else {
            None
        }
    }
}

impl Marshalable for TpmSt {
    open spec fn spec_wf(v: TpmSt) -> bool {
        true
    }

    open spec fn spec_marshal(v: TpmSt) -> Seq<u8> {
        be_u16(v.spec_value())
    }

    open spec fn spec_unmarshal(s: Seq<u8>) -> Result<(TpmSt, int), MarshalError> {
        if s.len() < 2 {
            Err(MarshalError::Insufficient)
        } else {
            match TpmSt::spec_from_value(from_be_u16(s)) {
                Some(t) => Ok((t, 2)),
                None => Err(MarshalError::Value),
            }
        }
    }

    proof fn lemma_unmarshal_marshal(v: TpmSt, rest: Seq<u8>) {
        lemma_be_u16_roundtrip(v.spec_value(), rest);
    }

    proof fn lemma_marshal_unmarshal(s: Seq<u8>) {
        lemma_be_u16_roundtrip(0, s);
    }

    fn marshal(&self, out: &mut Vec<u8>) {
        self.value().marshal(out);
        assert(out@ == old(out)@ + Self::spec_marshal(self@));
        assert(Self::spec_wf(self@));
    }

    fn try_unmarshal(buf: &mut UnmarshalBuf) -> (r: TssResult<TpmSt>) {
        let v = u16::try_unmarshal(buf)?;
        match TpmSt::from_value(v) {
            Some(t) => Ok(t),
            None => Err(TssError::Marshal(MarshalError::Value)),
        }
    }
}

/// Session attributes (`TPMA_SESSION`), a bit field.
#[derive(Debug, Clone, Copy, PartialEq, Eq, Structural)]
pub struct TpmaSession(pub u8);

impl TpmaSession {
    pub const CONTINUE_SESSION: u8 = 0x01;
    pub const AUDIT_EXCLUSIVE: u8 = 0x02;
    pub const AUDIT_RESET: u8 = 0x04;
    pub const DECRYPT: u8 = 0x20;
    pub const ENCRYPT: u8 = 0x40;
    pub const AUDIT: u8 = 0x80;
}

impl View for TpmaSession {
    type V = u8;

    open spec fn view(&self) -> u8 {
        self.0
    }
}

impl Marshalable for TpmaSession {
    open spec fn spec_wf(v: u8) -> bool {
        true
    }

    open spec fn spec_marshal(v: u8) -> Seq<u8> {
        seq![v]
    }

    open spec fn spec_unmarshal(s: Seq<u8>) -> Result<(u8, int), MarshalError> {
        <u8 as Marshalable>::spec_unmarshal(s)
    }

    proof fn lemma_unmarshal_marshal(v: u8, rest: Seq<u8>) {
        <u8 as Marshalable>::lemma_unmarshal_marshal(v, rest);
    }

    proof fn lemma_marshal_unmarshal(s: Seq<u8>) {
        <u8 as Marshalable>::lemma_marshal_unmarshal(s);
    }

    fn marshal(&self, out: &mut Vec<u8>) {
        self.0.marshal(out);
        assert(out@ == old(out)@ + Self::spec_marshal(self@));
        assert(Self::spec_wf(self@));
    }

    fn try_unmarshal(buf: &mut UnmarshalBuf) -> (r: TssResult<TpmaSession>) {
        let v = u8::try_unmarshal(buf)?;
        Ok(TpmaSession(v))
    }
}

/// The handle of an authorization session (`TPMI_SH_AUTH_SESSION`).
#[derive(Debug, Clone, Copy, PartialEq, Eq, Structural)]
pub struct TpmiShAuthSession(pub u32);

/// A handle (`TPM_HANDLE`).
#[derive(Debug, Clone, Copy, PartialEq, Eq, Structural)]
pub struct TpmHandle(pub u32);

/// The handle of a hierarchy (`TPMI_RH_HIERARCHY`).
#[derive(Debug, Clone, Copy, PartialEq, Eq, Structural)]
pub struct TpmiRhHierarchy(pub u32);

impl View for TpmiShAuthSession {
    type V = u32;

    open spec fn view(&self) -> u32 {
        self.0
    }
}

impl View for TpmHandle {
    type V = u32;

    open spec fn view(&self) -> u32 {
        self.0
    }
}

impl View for TpmiRhHierarchy {
    type V = u32;

    open spec fn view(&self) -> u32 {
        self.0
    }
}

impl Marshalable for TpmiShAuthSession {
    open spec fn spec_wf(v: u32) -> bool {
        true
    }

    open spec fn spec_marshal(v: u32) -> Seq<u8> {
        be_u32(v)
    }

    open spec fn spec_unmarshal(s: Seq<u8>) -> Result<(u32, int), MarshalError> {
        <u32 as Marshalable>::spec_unmarshal(s)
    }

    proof fn lemma_unmarshal_marshal(v: u32, rest: Seq<u8>) {
        lemma_be_u32_roundtrip(v, rest);
    }

    proof fn lemma_marshal_unmarshal(s: Seq<u8>) {
        lemma_be_u32_roundtrip(0, s);
    }

    fn marshal(&self, out: &mut Vec<u8>) {
        self.0.marshal(out);
        assert(out@ == old(out)@ + Self::spec_marshal(self@));
        assert(Self::spec_wf(self@));
    }

    fn try_unmarshal(buf: &mut UnmarshalBuf) -> (r: TssResult<TpmiShAuthSession>) {
        let v = u32::try_unmarshal(buf)?;
        Ok(TpmiShAuthSession(v))
    }
}

impl Marshalable for TpmHandle {
    open spec fn spec_wf(v: u32) -> bool {
        true
    }

    open spec fn spec_marshal(v: u32) -> Seq<u8> {
        be_u32(v)
    }

    open spec fn spec_unmarshal(s: Seq<u8>) -> Result<(u32, int), MarshalError> {
        <u32 as Marshalable>::spec_unmarshal(s)
    }

    proof fn lemma_unmarshal_marshal(v: u32, rest: Seq<u8>) {
        lemma_be_u32_roundtrip(v, rest);
    }

    proof fn lemma_marshal_unmarshal(s: Seq<u8>) {
        lemma_be_u32_roundtrip(0, s);
    }

    fn marshal(&self, out: &mut Vec<u8>) {
        self.0.marshal(out);
        assert(out@ == old(out)@ + Self::spec_marshal(self@));
        assert(Self::spec_wf(self@));
    }

    fn try_unmarshal(buf: &mut UnmarshalBuf) -> (r: TssResult<TpmHandle>) {
        let v = u32::try_unmarshal(buf)?;
        Ok(TpmHandle(v))
    }
}

impl Marshalable for TpmiRhHierarchy {
    open spec fn spec_wf(v: u32) -> bool {
        true
    }

    open spec fn spec_marshal(v: u32) -> Seq<u8> {
        be_u32(v)
    }

    open spec fn spec_unmarshal(s: Seq<u8>) -> Result<(u32, int), MarshalError> {
        <u32 as Marshalable>::spec_unmarshal(s)
    }

    proof fn lemma_unmarshal_marshal(v: u32, rest: Seq<u8>) {
        lemma_be_u32_roundtrip(v, rest);
    }

    proof fn lemma_marshal_unmarshal(s: Seq<u8>) {
        lemma_be_u32_roundtrip(0, s);
    }

    fn marshal(&self, out: &mut Vec<u8>) {
        self.0.marshal(out);
        assert(out@ == old(out)@ + Self::spec_marshal(self@));
        assert(Self::spec_wf(self@));
    }

    fn try_unmarshal(buf: &mut UnmarshalBuf) -> (r: TssResult<TpmiRhHierarchy>) {
        let v = u32::try_unmarshal(buf)?;
        Ok(TpmiRhHierarchy(v))
    }
}

/// A TPM command: its code, the types of its handles and of its response.
pub trait TpmCommand: Marshalable {
    /// The command's code.
    spec fn spec_cmd_code() -> TpmCc;

    /// The command's code.
    fn cmd_code() -> (c: TpmCc)
        ensures
            c == Self::spec_cmd_code(),
    ;

    type Handles: Marshalable;

    type RespT: Marshalable;

    type RespHandles: Marshalable;
}

} // verus!
