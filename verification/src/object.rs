use vstd::prelude::*;

use crate::errors::{MarshalError, TssResult};
use crate::marshal::{be_u32, from_be_u32, lemma_be_u32_roundtrip, Marshalable, UnmarshalBuf};
use crate::tpm2b::{
    lemma_tpm2b_marshal_unmarshal, lemma_tpm2b_unmarshal_marshal, spec_tpm2b_marshal,
    spec_tpm2b_unmarshal, Tpm2bName, Tpm2bPublic, Tpm2bSensitive,
};
use crate::types::{TpmCc, TpmCommand, TpmHandle, TpmiRhHierarchy};

verus! {

/// TPM2_Create.
pub struct CreateCmd {}

/// TPM2_Load.
pub struct LoadCmd {}

/// TPM2_LoadExternal: loads an object that is not a protected object of the TPM.
pub struct LoadExternalCmd {
    pub in_private: Tpm2bSensitive,
    pub in_public: Tpm2bPublic,
    pub hierarchy: TpmiRhHierarchy,
}

/// The values of a `LoadExternalCmd`.
pub struct LoadExternalCmdModel {
    pub in_private: Seq<u8>,
    pub in_public: Seq<u8>,
    pub hierarchy: u32,
}

/// The response of TPM2_LoadExternal: the name of the loaded object.
pub struct LoadExternalResp {
    pub name: Tpm2bName,
}

/// TPM2_ReadPublic.
pub struct ReadPublicCmd {}

/// TPM2_ActivateCredential.
pub struct ActivateCredentialCmd {}

/// TPM2_MakeCredential.
pub struct MakeCredentialCmd {}

/// TPM2_Unseal.
pub struct UnsealCmd {}

/// TPM2_ObjectChangeAuth.
pub struct ObjectChangeAuthCmd {}

/// TPM2_CreateLoaded.
pub struct CreateLoadedCmd {}

/// The capacity of a marshalled sensitive or public area.
pub const AREA_MAX: usize = 0xffff;

/// The capacity of a name.
pub const NAME_MAX: usize = 66;

impl View for LoadExternalCmd {
    type V = LoadExternalCmdModel;

    open spec fn view(&self) -> LoadExternalCmdModel {
        LoadExternalCmdModel {
            in_private: self.in_private@,
            in_public: self.in_public@,
            hierarchy: self.hierarchy@,
        }
    }
}

impl View for LoadExternalResp {
    type V = Seq<u8>;

    open spec fn view(&self) -> Seq<u8> {
        self.name@
    }
}

impl Marshalable for LoadExternalCmd {
    open spec fn spec_wf(v: LoadExternalCmdModel) -> bool {
        Tpm2bSensitive::fits(v.in_private) && Tpm2bPublic::fits(v.in_public)
    }

    open spec fn spec_marshal(v: LoadExternalCmdModel) -> Seq<u8> {
        spec_tpm2b_marshal(v.in_private) + spec_tpm2b_marshal(v.in_public) + be_u32(v.hierarchy)
    }

    open spec fn spec_unmarshal(s: Seq<u8>) -> Result<(LoadExternalCmdModel, int), MarshalError> {
        match spec_tpm2b_unmarshal(AREA_MAX as nat, s) {
            Err(e) => Err(e),
            Ok((in_private, n1)) => match spec_tpm2b_unmarshal(AREA_MAX as nat, s.skip(n1)) {
                Err(e) => Err(e),
                Ok((in_public, n2)) => {
                    let s3 = s.skip(n1 + n2);
                    if s3.len() < 4 {
                        Err(MarshalError::Insufficient)
                    } else {
                        Ok(
                            (
                                LoadExternalCmdModel {
                                    in_private,
                                    in_public,
                                    hierarchy: from_be_u32(s3),
                                },
                                n1 + n2 + 4,
                            ),
                        )
                    }
                },
            },
        }
    }

    proof fn lemma_unmarshal_marshal(v: LoadExternalCmdModel, rest: Seq<u8>) {
        let a = spec_tpm2b_marshal(v.in_private);
        let b = spec_tpm2b_marshal(v.in_public);
        let c = be_u32(v.hierarchy);
        let s = Self::spec_marshal(v) + rest;
        assert(s =~= a + (b + (c + rest)));
        lemma_tpm2b_unmarshal_marshal(AREA_MAX as nat, v.in_private, b + (c + rest));
        assert(s.skip(a.len() as int) =~= b + (c + rest));
        lemma_tpm2b_unmarshal_marshal(AREA_MAX as nat, v.in_public, c + rest);
        assert(s.skip(a.len() + b.len() as int) =~= c + rest);
        lemma_be_u32_roundtrip(v.hierarchy, rest);
    }

    proof fn lemma_marshal_unmarshal(s: Seq<u8>) {
        lemma_tpm2b_marshal_unmarshal(AREA_MAX as nat, s);
        if let Ok((in_private, n1)) = spec_tpm2b_unmarshal(AREA_MAX as nat, s) {
            lemma_tpm2b_marshal_unmarshal(AREA_MAX as nat, s.skip(n1));
            if let Ok((in_public, n2)) = spec_tpm2b_unmarshal(AREA_MAX as nat, s.skip(n1)) {
                let s3 = s.skip(n1 + n2);
                if s3.len() >= 4 {
                    lemma_be_u32_roundtrip(0, s3);
                    let v = LoadExternalCmdModel { in_private, in_public, hierarchy: from_be_u32(s3) };
                    assert(s.skip(n1).take(n2) =~= s.subrange(n1, n1 + n2));
                    assert(s3.take(4) =~= s.subrange(n1 + n2, n1 + n2 + 4));
                    assert(Self::spec_marshal(v) =~= s.take(n1 + n2 + 4));
                }
            }
        }
    }

    fn marshal(&self, out: &mut Vec<u8>) {
        let ghost start = out@;
        self.in_private.marshal(out);
        self.in_public.marshal(out);
        self.hierarchy.marshal(out);
        assert(out@ =~= start + Self::spec_marshal(self@));
        assert(Self::spec_wf(self@));
    }

    fn try_unmarshal(buf: &mut UnmarshalBuf) -> (r: TssResult<LoadExternalCmd>) {
        let ghost s = buf@;
        let in_private = Tpm2bSensitive::try_unmarshal(buf)?;
        let ghost n1: int = in_private@.len() as int + 2;
        proof {
            lemma_tpm2b_marshal_unmarshal(AREA_MAX as nat, s);
        }
        let in_public = Tpm2bPublic::try_unmarshal(buf)?;
        let ghost n2: int = in_public@.len() as int + 2;
        proof {
            lemma_tpm2b_marshal_unmarshal(AREA_MAX as nat, s.skip(n1));
            assert(s.skip(n1).skip(n2) =~= s.skip(n1 + n2));
        }
        let hierarchy = TpmiRhHierarchy::try_unmarshal(buf)?;
        proof {
            assert(s.skip(n1 + n2).skip(4) =~= s.skip(n1 + n2 + 4));
        }
        Ok(LoadExternalCmd { in_private, in_public, hierarchy })
    }
}

impl Marshalable for LoadExternalResp {
    open spec fn spec_wf(v: Seq<u8>) -> bool {
        Tpm2bName::fits(v)
    }

    open spec fn spec_marshal(v: Seq<u8>) -> Seq<u8> {
        spec_tpm2b_marshal(v)
    }

    open spec fn spec_unmarshal(s: Seq<u8>) -> Result<(Seq<u8>, int), MarshalError> {
        spec_tpm2b_unmarshal(NAME_MAX as nat, s)
    }

    proof fn lemma_unmarshal_marshal(v: Seq<u8>, rest: Seq<u8>) {
        lemma_tpm2b_unmarshal_marshal(NAME_MAX as nat, v, rest);
    }

    proof fn lemma_marshal_unmarshal(s: Seq<u8>) {
        lemma_tpm2b_marshal_unmarshal(NAME_MAX as nat, s);
    }

    fn marshal(&self, out: &mut Vec<u8>) {
        self.name.marshal(out);
        assert(out@ == old(out)@ + Self::spec_marshal(self@));
        assert(Self::spec_wf(self@));
    }

    fn try_unmarshal(buf: &mut UnmarshalBuf) -> (r: TssResult<LoadExternalResp>) {
        let name = Tpm2bName::try_unmarshal(buf)?;
        Ok(LoadExternalResp { name })
    }
}

impl TpmCommand for LoadExternalCmd {
    /// TPM2_LoadExternal.
    open spec fn spec_cmd_code() -> TpmCc {
        TpmCc::LoadExternal
    }

    fn cmd_code() -> (c: TpmCc) {
        TpmCc::LoadExternal
    }

    type Handles = ();

    type RespT = LoadExternalResp;

    /// The handle of the loaded transient object.
    type RespHandles = TpmHandle;
}

} // verus!
