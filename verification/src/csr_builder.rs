//! Building PKCS#10 certificate signing requests.

use std::ops::Deref;

use vstd::prelude::*;
use vstd::std_specs::cmp::PartialEqSpec;

use crate::builder_common::{extensions_allowed, option_extension_view, same_but_key_and_state, same_but_state, san_allowed, Builder};
use crate::crypto_provider::{signs_with, NoCryptoProvider, sign_with, AlgorithmIdentifier, CryptoProvider, DefaultPkParameters, PkProvider, SigningAdapter};
use crate::der::{certification_request_der, certification_request_info_der, encode_certification_request, encode_certification_request_info};
use crate::error::{Error, ValidationErrorType};
use crate::key_material::{DefaultSelfSigningKeyMaterial, NoKeyMaterial, SelfSigningKeyMaterial};
use crate::name_builder::Subject;
use crate::oids::{extension_request_oid, oid_eq, spec_extension_request_oid, spec_subject_alt_name_oid};
use crate::types::{attributes_encodable, extensions_encodable, name_encodable, attribute_oids, attributes_view, copy_oid, extensions_view, CsrAttribute, CsrAttributeView, NameEntryView, X509Extension, X509ExtensionView};
use crate::util::{
    attributes_contain_key, build_attributes, build_extensions, first_duplicate_key, is_duplicate_attribute_error,
    is_duplicate_extension_error, keys_distinct, keys_valid, lemma_append_keeps_keys_valid, lemma_built_extensions_distinct, lemma_built_extensions_encodable,
    lemma_built_attributes_distinct, lemma_first_duplicate_key_step, spec_built_attributes, spec_built_extensions, spec_san_conflict,
};

verus! {

/// A DER-encoded PKCS#10 certificate signing request.
#[derive(Debug, PartialEq, Eq)]
pub struct Csr(Vec<u8>);

impl View for Csr {
    type V = Seq<u8>;

    closed spec fn view(&self) -> Seq<u8> {
        self.0@
    }
}

impl Csr {
    /// Wraps DER bytes built earlier, such as ones read back from storage.
    pub fn from_vec(der: Vec<u8>) -> (r: Self)
        ensures r@ == der@,
    {
        Csr(der)
    }

    /// The DER bytes, for changing in place.
    pub fn as_mut_slice(&mut self) -> (r: &mut [u8])
        ensures
            r@ == old(self)@,
            final(self)@ == final(r)@,
    {
        self.0.as_mut_slice()
    }

    /// The DER bytes.
    pub fn into_vec(self) -> (r: Vec<u8>)
        ensures r@ == self@,
    {
        self.0
    }

    /// The DER bytes.
    pub fn as_slice(&self) -> (r: &[u8])
        ensures r@ == self@,
    {
        self.0.as_slice()
    }

    /// A builder for certificate signing requests.
    pub fn builder() -> (r: Builder<CsrState>)
        ensures
            r.spec_is_fresh(),
            r.spec_use_case_state().spec_attributes() == Seq::<CsrAttributeView>::empty(),
    {
        Builder::<CsrState>::new()
    }
}

impl Deref for Csr {
    type Target = [u8];

    fn deref(&self) -> (r: &[u8])
        ensures r@ == self@,
    {
        self.0.as_slice()
    }
}

impl From<Csr> for Vec<u8> {
    fn from(value: Csr) -> (r: Vec<u8>)
        ensures r@ == value@,
    {
        value.into_vec()
    }
}

impl vstd::std_specs::convert::FromSpecImpl<Csr> for Vec<u8> {
    open spec fn obeys_from_spec() -> bool {
        false
    }

    open spec fn from_spec(v: Csr) -> Vec<u8> {
        arbitrary()
    }
}

/// Attributes that a request may hold besides those the builder adds: no identifier twice, and
/// no extension request, which the builder adds itself from the extensions.
pub open spec fn attributes_allowed(attributes: Seq<CsrAttributeView>) -> bool {
    keys_valid(attribute_oids(attributes), spec_extension_request_oid())
}

/// Request-related state: the attributes requested from the certificate authority. The
/// extension request attribute is not among them: the builder adds it from its extensions.
pub struct CsrState {
    attributes: Vec<CsrAttribute>,
}

impl CsrState {
    #[verifier::type_invariant]
    spec fn attributes_wf(self) -> bool {
        attributes_allowed(attributes_view(self.attributes@))
    }

    /// The attributes set so far, in order.
    pub closed spec fn spec_attributes(&self) -> Seq<CsrAttributeView> {
        attributes_view(self.attributes@)
    }
}

/// Appends `added` to `attributes`, refusing the first whose identifier is already present,
/// occurs earlier among them or is that of the extension request.
fn append_attributes_to(attributes: Vec<CsrAttribute>, added: Vec<CsrAttribute>) -> (r: Result<Vec<CsrAttribute>, Error>)
    requires attributes_allowed(attributes_view(attributes@)),
    ensures
        match first_duplicate_key(attribute_oids(attributes_view(attributes@)), attribute_oids(attributes_view(added@)), spec_extension_request_oid()) {
            Some(k) => r matches Err(e) && is_duplicate_attribute_error(e, k),
            None => r matches Ok(v) && attributes_view(v@) == attributes_view(attributes@) + attributes_view(added@)
                && attributes_allowed(attributes_view(v@)),
        },
{
    let mut attributes_vec = attributes;
    let reserved = extension_request_oid();
    let ghost start = attributes_view(attributes_vec@);
    let ghost existing = attribute_oids(start);
    let ghost new_views = attributes_view(added@);
    let ghost keys = attribute_oids(new_views);
    assert(existing + keys.take(0) =~= existing);
    assert(keys.skip(0) =~= keys);
    assert(start + new_views.take(0) =~= start);
    let mut i: usize = 0;
    while i < added.len()
        invariant
            0 <= i <= added@.len(),
            new_views == attributes_view(added@),
            keys == attribute_oids(new_views),
            keys.len() == added@.len(),
            reserved@ == spec_extension_request_oid(),
            start == attributes_view(attributes@),
            existing == attribute_oids(start),
            attributes_view(attributes_vec@) == start + new_views.take(i as int),
            attribute_oids(attributes_view(attributes_vec@)) == existing + keys.take(i as int),
            first_duplicate_key(existing, keys, reserved@)
                == first_duplicate_key(existing + keys.take(i as int), keys.skip(i as int), reserved@),
        decreases added@.len() - i,
    {
        let cur = &added[i];
        assert(keys[i as int] == cur.oid@);
        // The extension request is added by the builder itself, from its extensions.
        if attributes_contain_key(attributes_vec.as_slice(), cur.oid.as_slice()) || oid_eq(cur.oid.as_slice(), reserved.as_slice()) {
            assert(keys.skip(i as int)[0] == keys[i as int]);
            assert(keys.skip(i as int).len() > 0);
            return Err(Error::Validation(ValidationErrorType::DuplicateAttribute(copy_oid(&cur.oid))));
        }
        proof {
            lemma_first_duplicate_key_step(existing, keys, reserved@, i as int);
        }
        let ghost before = attributes_vec@;
        let copy = cur.duplicate();
        attributes_vec.push(copy);
        assert(attributes_vec@ == before.push(copy));
        assert(attributes_view(attributes_vec@) =~= attributes_view(before).push(copy@));
        assert(new_views.take(i + 1) =~= new_views.take(i as int).push(new_views[i as int]));
        assert(keys.take(i + 1) =~= keys.take(i as int).push(keys[i as int]));
        assert(attribute_oids(attributes_view(attributes_vec@)) =~= attribute_oids(attributes_view(before)).push(copy@.oid));
        i = i + 1;
    }
    proof {
        assert(keys.take(i as int) =~= keys);
        assert(new_views.take(i as int) =~= new_views);
        assert(keys.skip(i as int) =~= Seq::<Seq<u64>>::empty());
        lemma_append_keeps_keys_valid(existing, keys, reserved@);
    }
    Ok(attributes_vec)
}

impl Default for Builder<CsrState> {
    fn default() -> (r: Self)
        ensures
            r.spec_is_fresh(),
            r.spec_use_case_state().spec_attributes() == Seq::<CsrAttributeView>::empty(),
    {
        Self::new()
    }
}

impl Builder<CsrState> {
    pub fn new() -> (r: Self)
        ensures
            r.spec_is_fresh(),
            r.spec_use_case_state().spec_attributes() == Seq::<CsrAttributeView>::empty(),
    {
        let attributes: Vec<CsrAttribute> = Vec::new();
        assert(attributes_view(attributes@) =~= Seq::<CsrAttributeView>::empty());
        Builder::new_for_use_case(CsrState { attributes })
    }
}

impl<CP: CryptoProvider, S> Builder<CsrState, CP, NoKeyMaterial, S> {
    /// Signs the request with `signing_key` under `signature_algorithm`. Refused where the
    /// algorithm does not go with the key.
    pub fn with_self_signing_key<'k, A: SigningAdapter<CP::Pk>>(
        self,
        signing_key: &'k mut CP::Pk,
        signature_algorithm: A,
    ) -> (r: Result<Builder<CsrState, CP, SelfSigningKeyMaterial<'k, CP::Pk, A>, S>, Error>)
        ensures
            r matches Err(e) ==> e matches Error::Validation(ValidationErrorType::PkAndSigAlgMismatch),
            <CP::Pk as PkProvider>::obeys_key_spec() && A::obeys_adapter_spec()
                && <CP::Pk as PkProvider>::SignatureAlgorithm::obeys_eq_spec() ==> (r is Ok <==> old(signing_key).spec_signature_algorithm().eq_spec(&A::spec_signature_algorithm())),
            r matches Ok(b) ==> {
                &&& same_but_key_and_state(b, self)
                &&& b.spec_use_case_state() == self.spec_use_case_state()
                &&& b.spec_key_material().spec_key() == *old(signing_key)
                &&& b.spec_key_material().spec_algorithm() == signature_algorithm
            },
    {
        match A::allows_pk(signing_key) {
            Ok(()) => {},
            Err(e) => { return Err(e); },
        }
        Ok(self.with_key_material(SelfSigningKeyMaterial::new(signing_key, signature_algorithm)))
    }

    /// Signs the request with a key that building generates with the default parameters of
    /// `signature_algorithm`.
    pub fn with_generated_self_signing_key<A>(self, signature_algorithm: A) -> (r: Builder<CsrState, CP, DefaultSelfSigningKeyMaterial<A>, S>)
        ensures
            same_but_key_and_state(r, self),
            r.spec_use_case_state() == self.spec_use_case_state(),
            r.spec_key_material().spec_algorithm() == signature_algorithm,
    {
        self.with_key_material(DefaultSelfSigningKeyMaterial::new(signature_algorithm))
    }
}

impl<CP, K, S> Builder<CsrState, CP, K, S> {
    /// Replaces the attributes by `attributes`, refusing the first whose identifier occurs
    /// earlier among them or is that of the extension request.
    pub fn with_attributes(self, attributes: Vec<CsrAttribute>) -> (r: Result<Self, Error>)
        ensures
            match first_duplicate_key(Seq::empty(), attribute_oids(attributes_view(attributes@)), spec_extension_request_oid()) {
                Some(k) => r matches Err(e) && is_duplicate_attribute_error(e, k),
                None => r matches Ok(b) && same_but_state(b, self)
                    && b.spec_use_case_state().spec_attributes() == attributes_view(attributes@)
                    && attributes_allowed(b.spec_use_case_state().spec_attributes()),
            },
    {
        let (b, state) = self.swap_use_case_state(());
        let empty: Vec<CsrAttribute> = Vec::new();
        assert(attributes_view(empty@) =~= Seq::<CsrAttributeView>::empty());
        assert(attribute_oids(attributes_view(empty@)) =~= Seq::<Seq<u64>>::empty());
        let r = append_attributes_to(empty, attributes);
        match r {
            Ok(v) => {
                assert(Seq::<CsrAttributeView>::empty() + attributes_view(attributes@) =~= attributes_view(attributes@));
                Ok(b.swap_use_case_state(CsrState { attributes: v }).0)
            },
            Err(e) => Err(e),
        }
    }

    /// Appends `attributes`, refusing the first whose identifier is already present, occurs
    /// earlier among them or is that of the extension request.
    pub fn append_attributes(self, attributes: Vec<CsrAttribute>) -> (r: Result<Self, Error>)
        ensures
            match first_duplicate_key(
                attribute_oids(self.spec_use_case_state().spec_attributes()),
                attribute_oids(attributes_view(attributes@)),
                spec_extension_request_oid(),
            ) {
                Some(k) => r matches Err(e) && is_duplicate_attribute_error(e, k),
                None => r matches Ok(b) && same_but_state(b, self)
                    && b.spec_use_case_state().spec_attributes()
                        == self.spec_use_case_state().spec_attributes() + attributes_view(attributes@)
                    && attributes_allowed(b.spec_use_case_state().spec_attributes()),
            },
    {
        let (b, state) = self.swap_use_case_state(());
        proof { use_type_invariant(&state); }
        let CsrState { attributes: current } = state;
        match append_attributes_to(current, attributes) {
            Ok(v) => Ok(b.swap_use_case_state(CsrState { attributes: v }).0),
            Err(e) => Err(e),
        }
    }
}

/// The subject, the extensions and the attributes of the builder hold only object identifiers
/// that DER can encode, and attribute values that can be written as a DER SET; `pkix` panics on
/// others, so building requires it.
pub open spec fn csr_encodable<CP, K>(b: Builder<CsrState, CP, K, Subject>) -> bool {
    &&& name_encodable(b.spec_subject()@)
    &&& extensions_encodable(b.spec_extensions())
    &&& attributes_encodable(b.spec_use_case_state().spec_attributes())
}

/// `csr` is a request for `subject` with these extensions and attributes, carrying the public
/// key that the signing key gave and a signature under the signature algorithm
/// `signature_algorithm`; where the key keeps its model, that public key is `public_key` and the
/// signature verifies under it.
pub open spec fn spec_csr_with_key<PK: PkProvider>(
    csr: Seq<u8>,
    extensions: Seq<X509ExtensionView>,
    ca: bool,
    san: Option<X509ExtensionView>,
    attributes: Seq<CsrAttributeView>,
    subject: Seq<NameEntryView>,
    signature_algorithm: Seq<u8>,
    public_key: Seq<u8>,
) -> bool {
    exists|key_der: Seq<u8>, signature: Seq<u8>|
        csr_with_key_at::<PK>(csr, extensions, ca, san, attributes, subject, signature_algorithm, public_key, key_der, signature)
}

/// `csr` is the request for `subject` with these extensions and attributes that names the
/// public key `key_der` the signing key gave (its model `public_key`, where the key keeps it)
/// and carries `signature`, which verifies under it where the key keeps its model.
pub open spec fn csr_with_key_at<PK: PkProvider>(
    csr: Seq<u8>,
    extensions: Seq<X509ExtensionView>,
    ca: bool,
    san: Option<X509ExtensionView>,
    attributes: Seq<CsrAttributeView>,
    subject: Seq<NameEntryView>,
    signature_algorithm: Seq<u8>,
    public_key: Seq<u8>,
    key_der: Seq<u8>,
    signature: Seq<u8>,
) -> bool {
    let info = certification_request_info_der(
        subject,
        key_der,
        spec_built_attributes(attributes, spec_built_extensions(extensions, ca, san)),
    );
    &&& PK::obeys_key_spec() ==> key_der == public_key
    &&& csr == certification_request_der(info, signature_algorithm, signature)
    &&& PK::obeys_key_spec() ==> PK::spec_signature_verifies(public_key, info, signature)
}

/// The request info made of the subject, the outcome of asking the signing key for its public
/// key, and the attributes followed by the extension request for `extensions`: for the DER
/// SubjectPublicKeyInfo, the version 1 CertificationRequestInfo with these fields; for an error
/// of the key, that error.
pub fn assemble_request_info(
    subject: &Subject,
    spki: Result<Vec<u8>, Error>,
    attributes: Vec<CsrAttribute>,
    extensions: Vec<X509Extension>,
) -> (r: Result<Vec<u8>, Error>)
    requires
        name_encodable(subject@),
        attributes_encodable(attributes_view(attributes@)),
        extensions_encodable(extensions_view(extensions@)),
    ensures
        match spki {
            Ok(p) => r matches Ok(info) && info@ == certification_request_info_der(subject@, p@,
                spec_built_attributes(attributes_view(attributes@), extensions_view(extensions@))),
            Err(e) => r == Err::<Vec<u8>, Error>(e),
        },
{
    let p = match spki {
        Ok(p) => p,
        Err(e) => { return Err(e); },
    };
    let all_attributes = match build_attributes(attributes, extensions) {
        Ok(v) => v,
        Err(e) => { return Err(e); },
    };
    Ok(encode_certification_request_info(subject.name(), p.as_slice(), all_attributes.as_slice()))
}

/// The request made of the DER request info `info`, the DER signature algorithm and the
/// outcome of signing: for a signature, the request that carries it; for an error of the
/// signing key, that error.
pub fn assemble_request(info: &[u8], signature_algorithm: &[u8], signature: Result<Vec<u8>, Error>) -> (r: Result<Csr, Error>)
    ensures
        match signature {
            Ok(s) => r matches Ok(c) && c@ == certification_request_der(info@, signature_algorithm@, s@),
            Err(e) => r == Err::<Csr, Error>(e),
        },
{
    match signature {
        Ok(s) => Ok(Csr(encode_certification_request(info, signature_algorithm, s.as_slice()))),
        Err(e) => Err(e),
    }
}

/// Builds a request for `subject`, naming the public key of `signing_key` and signed with it.
fn sign_csr<PK: PkProvider, A: SigningAdapter<PK>>(
    extensions: Vec<X509Extension>,
    ca: bool,
    san: Option<X509Extension>,
    attributes: Vec<CsrAttribute>,
    subject: &Subject,
    algorithm: &A,
    signing_key: &mut PK,
) -> (r: Result<Vec<u8>, Error>)
    requires
        extensions_allowed(extensions_view(extensions@)),
        san_allowed(option_extension_view(san)),
        extensions_encodable(extensions_view(extensions@)),
        attributes_encodable(attributes_view(attributes@)),
        name_encodable(subject@),
    ensures
        spec_san_conflict(extensions_view(extensions@), option_extension_view(san)) ==>
            (r matches Err(e) && is_duplicate_extension_error(e, spec_subject_alt_name_oid())),
        r matches Ok(c) ==> spec_csr_with_key::<PK>(
            c@,
            extensions_view(extensions@),
            ca,
            option_extension_view(san),
            attributes_view(attributes@),
            subject@,
            algorithm.spec_der(),
            old(signing_key).spec_public_key_der(),
        ),
        r is Ok ==> keys_distinct(extension_oids_of_built(extensions_view(extensions@), ca, option_extension_view(san))),
        final(signing_key).spec_public_key_der() == old(signing_key).spec_public_key_der(),
        spec_san_conflict(extensions_view(extensions@), option_extension_view(san)) ==> *final(signing_key) == *old(signing_key),
        !spec_san_conflict(extensions_view(extensions@), option_extension_view(san))
            && PK::obeys_key_spec() && old(signing_key).spec_exports() && signs_with::<PK, A>(*old(signing_key)) ==> r is Ok,
{
    let ghost exts = extensions_view(extensions@);
    let ghost san_view = option_extension_view(san);
    let built = match build_extensions(extensions, ca, san) {
        Ok(v) => v,
        Err(e) => { return Err(e); },
    };
    proof {
        lemma_built_extensions_distinct(exts, ca, san_view);
        lemma_built_extensions_encodable(exts, ca, san_view);
    }
    let spki = signing_key.write_public_key_der();
    let ghost spki_result = spki;
    let ghost attrs = attributes_view(attributes@);
    let ghost built_view = extensions_view(built@);
    let reqinfo = match assemble_request_info(subject, spki, attributes, built) {
        Ok(v) => v,
        Err(e) => { return Err(e); },
    };
    assert(reqinfo@ == certification_request_info_der(subject@, spki_result->Ok_0@, spec_built_attributes(attrs, built_view)));
    let sig = sign_with::<PK, A>(signing_key, reqinfo.as_slice());
    let ghost sig_result = sig;
    let signature_algorithm = algorithm.der();
    match assemble_request(reqinfo.as_slice(), signature_algorithm.as_slice(), sig) {
        Ok(csr) => {
            assert(csr@ == certification_request_der(reqinfo@, algorithm.spec_der(), sig_result->Ok_0@));
            assert(csr_with_key_at::<PK>(csr@, exts, ca, san_view, attrs, subject@, algorithm.spec_der(),
                old(signing_key).spec_public_key_der(), spki_result->Ok_0@, sig_result->Ok_0@));
            Ok(csr.into_vec())
        },
        Err(e) => Err(e),
    }
}

/// The identifiers of the extensions that a request or certificate is built with.
pub open spec fn extension_oids_of_built(extensions: Seq<X509ExtensionView>, ca: bool, san: Option<X509ExtensionView>) -> Seq<Seq<u64>> {
    crate::types::extension_oids(spec_built_extensions(extensions, ca, san))
}

impl<'k, CP: CryptoProvider, A> Builder<CsrState, CP, SelfSigningKeyMaterial<'k, CP::Pk, A>, Subject>
    where A: Clone + AlgorithmIdentifier + SigningAdapter<CP::Pk>
{
    /// Builds the DER-encoded request: it names the subject and the public key of the signing
    /// key, lists the attributes followed by the extension request carrying the extensions, and
    /// is signed with the signing key.
    pub fn build_csr(self) -> (r: Result<Csr, Error>)
        requires csr_encodable(self),
        ensures
            spec_san_conflict(self.spec_extensions(), self.spec_san()) ==>
                (r matches Err(e) && is_duplicate_extension_error(e, spec_subject_alt_name_oid())),
            spec_san_conflict(self.spec_extensions(), self.spec_san()) ==>
                *final(self.spec_key_material().signing_key) == *self.spec_key_material().signing_key,
            !spec_san_conflict(self.spec_extensions(), self.spec_san())
                && self.spec_key_material().spec_key().spec_exports()
                && signs_with::<CP::Pk, A>(self.spec_key_material().spec_key()) ==> r is Ok,
            r matches Ok(c) ==> spec_csr_with_key::<CP::Pk>(
                c@,
                self.spec_extensions(),
                self.spec_ca(),
                self.spec_san(),
                self.spec_use_case_state().spec_attributes(),
                self.spec_subject()@,
                self.spec_key_material().spec_algorithm().spec_der(),
                self.spec_key_material().spec_key().spec_public_key_der(),
            ),
            r is Ok ==> keys_distinct(extension_oids_of_built(self.spec_extensions(), self.spec_ca(), self.spec_san())),
            r is Ok ==> keys_distinct(attribute_oids(spec_built_attributes(
                self.spec_use_case_state().spec_attributes(),
                spec_built_extensions(self.spec_extensions(), self.spec_ca(), self.spec_san()),
            ))),
    {
        let (_crypto_provider, subject, extensions, san, ca, key_material, state) = self.into_parts();
        proof { use_type_invariant(&state); }
        proof {
            lemma_built_attributes_distinct(
                attributes_view(state.attributes@),
                spec_built_extensions(extensions_view(extensions@), ca, option_extension_view(san)),
            );
        }
        let CsrState { attributes } = state;
        let SelfSigningKeyMaterial { signing_key, signature_algorithm } = key_material;
        match sign_csr(extensions, ca, san, attributes, &subject, &signature_algorithm, signing_key) {
            Ok(v) => {
                let c = Csr(v);
                Ok(c)
            },
            Err(e) => Err(e),
        }
    }
}

impl<CP: CryptoProvider, A> Builder<CsrState, CP, DefaultSelfSigningKeyMaterial<A>, Subject>
    where A: Clone + AlgorithmIdentifier + DefaultPkParameters<CP::Pk, CP::Rng> + SigningAdapter<CP::Pk>
{
    /// Generates a key with the default parameters of the signature algorithm and builds the
    /// request signed with it. Returns the request and the key. What follows the generation is
    /// `build_csr_with_generated_key`.
    pub fn build_csr_generate_key(self) -> (r: Result<(Csr, CP::Pk), Error>)
        requires csr_encodable(self),
        ensures
            r matches Ok((c, k)) ==> spec_csr_with_key::<CP::Pk>(
                c@,
                self.spec_extensions(),
                self.spec_ca(),
                self.spec_san(),
                self.spec_use_case_state().spec_attributes(),
                self.spec_subject()@,
                self.spec_key_material().spec_algorithm().spec_der(),
                k.spec_public_key_der(),
            ),
            spec_san_conflict(self.spec_extensions(), self.spec_san()) ==> r is Err,
    {
        let (b, mut crypto_provider) = self.swap_crypto_provider(NoCryptoProvider);
        let generated = A::generate_pk(crypto_provider.rng());
        let (b, _) = b.swap_crypto_provider(crypto_provider);
        b.build_csr_with_generated_key(generated)
    }
}

impl<CP: CryptoProvider, A> Builder<CsrState, CP, DefaultSelfSigningKeyMaterial<A>, Subject>
    where A: Clone + AlgorithmIdentifier + SigningAdapter<CP::Pk>
{
    /// Builds the request signed with the key that generation gave, and returns it with the
    /// key; passes on the error of generation.
    pub fn build_csr_with_generated_key(self, generated: Result<CP::Pk, Error>) -> (r: Result<(Csr, CP::Pk), Error>)
        requires csr_encodable(self),
        ensures
            generated matches Err(e) ==> r == Err::<(Csr, CP::Pk), Error>(e),
            generated is Ok && spec_san_conflict(self.spec_extensions(), self.spec_san()) ==>
                (r matches Err(e) && is_duplicate_extension_error(e, spec_subject_alt_name_oid())),
            generated matches Ok(g) ==> (!spec_san_conflict(self.spec_extensions(), self.spec_san())
                && g.spec_exports() && signs_with::<CP::Pk, A>(g) ==> r is Ok),
            r matches Ok((c, k)) ==> {
                &&& generated matches Ok(g) && k.spec_public_key_der() == g.spec_public_key_der()
                &&& spec_csr_with_key::<CP::Pk>(
                    c@,
                    self.spec_extensions(),
                    self.spec_ca(),
                    self.spec_san(),
                    self.spec_use_case_state().spec_attributes(),
                    self.spec_subject()@,
                    self.spec_key_material().spec_algorithm().spec_der(),
                    k.spec_public_key_der(),
                )
            },
    {
        let (_crypto_provider, subject, extensions, san, ca, key_material, state) = self.into_parts();
        proof { use_type_invariant(&state); }
        let mut signing_key = match generated {
            Ok(k) => k,
            Err(e) => { return Err(e); },
        };
        let CsrState { attributes } = state;
        let algorithm = key_material.into_algorithm();
        match sign_csr(extensions, ca, san, attributes, &subject, &algorithm, &mut signing_key) {
            Ok(v) => {
                let c = Csr(v);
                Ok((c, signing_key))
            },
            Err(e) => Err(e),
        }
    }
}

} // verus!
