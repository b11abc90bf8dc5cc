//! The builder shared by certificates, to-be-signed certificates and certificate signing
//! requests, and its methods that do not depend on what is built.

use vstd::prelude::*;
use vstd::string::*;

use crate::crypto_provider::{CryptoProvider, NoCryptoProvider};
use crate::error::{Error, ValidationErrorType};
use crate::key_material::NoKeyMaterial;
use crate::name_builder::Subject;
use crate::oids::{basic_constraints_oid, oid_eq, spec_basic_constraints_oid, spec_subject_alt_name_oid};
use crate::types::{general_name_encodable, general_names_encodable, copy_oid, extension_oids, extensions_view, general_names_view, AltName, AltNameView, X509Extension, X509ExtensionView};
use crate::util::{
    extensions_contain_key, first_duplicate_key, is_duplicate_extension_error, keys_valid,
    lemma_append_keeps_keys_valid, lemma_first_duplicate_key_step, san_extension_from_general_names,
    spec_san_extension,
};

verus! {

/// The identifiers of the extensions, with their views taken.
pub open spec fn oids_of(extensions: Seq<X509Extension>) -> Seq<Seq<u64>> {
    extension_oids(extensions_view(extensions))
}

/// Extensions that a builder may hold: no identifier twice, and no BasicConstraints extension,
/// which the builder adds itself.
pub open spec fn extensions_allowed(extensions: Seq<X509ExtensionView>) -> bool {
    keys_valid(extension_oids(extensions), spec_basic_constraints_oid())
}

/// A separately set subject alternative name extension has the identifier of one.
pub open spec fn san_allowed(san: Option<X509ExtensionView>) -> bool {
    san matches Some(e) ==> e.oid == spec_subject_alt_name_oid()
}

/// The view of an optional extension.
pub open spec fn option_extension_view(e: Option<X509Extension>) -> Option<X509ExtensionView> {
    match e {
        Some(x) => Some(x@),
        None => None,
    }
}

/// The general names that a list of DNS names stands for.
pub open spec fn dns_names_view(names: Seq<&str>) -> Seq<AltNameView> {
    names.map_values(|n: &str| AltNameView::DnsName(n@))
}

/// The general names that DNS names stand for are, in order, one DNS name for each string.
pub proof fn lemma_dns_names_one_per_string(names: Seq<&str>)
    ensures
        dns_names_view(names).len() == names.len(),
        forall|i: int| 0 <= i < names.len() ==>
            #[trigger] dns_names_view(names)[i] == AltNameView::DnsName(names[i]@),
{
}

/// `a` and `b` agree on all but their use-case state.
pub open spec fn same_but_state<C1, C2, CP, K, S>(a: Builder<C1, CP, K, S>, b: Builder<C2, CP, K, S>) -> bool {
    &&& a.spec_crypto_provider() == b.spec_crypto_provider()
    &&& a.spec_subject() == b.spec_subject()
    &&& a.spec_extensions() == b.spec_extensions()
    &&& a.spec_san() == b.spec_san()
    &&& a.spec_ca() == b.spec_ca()
    &&& a.spec_key_material() == b.spec_key_material()
}

/// `a` and `b` agree on all but their key material and use-case state.
pub open spec fn same_but_key_and_state<C1, C2, CP, K1, K2, S>(a: Builder<C1, CP, K1, S>, b: Builder<C2, CP, K2, S>) -> bool {
    &&& a.spec_crypto_provider() == b.spec_crypto_provider()
    &&& a.spec_subject() == b.spec_subject()
    &&& a.spec_extensions() == b.spec_extensions()
    &&& a.spec_san() == b.spec_san()
    &&& a.spec_ca() == b.spec_ca()
}

/// Builder of (v3) to-be-signed certificates, X.509 certificates (self-signed or not) and
/// certificate signing requests.
///
/// `C` is the state particular to what is built, `CP` the cryptographic backend, `K` the key
/// material and `S` the subject; each starts out as a placeholder and is set by a method.
#[derive(Debug)]
#[must_use]
pub struct Builder<C, CP = NoCryptoProvider, K = NoKeyMaterial, S = NoSubject> {
    /// The cryptographic backend.
    pub(crate) crypto_provider: CP,

    /// Name of the subject of the certificate.
    pub(crate) subject: S,

    /// Extensions to be set on the certificate. They never hold two extensions with one
    /// identifier, nor a BasicConstraints extension, which is generated from [Self::ca]. A
    /// subject alternative name extension should be set either here or on its own, not both.
    pub(crate) extensions: Vec<X509Extension>,

    /// The subject alternative name extension, where one was set on its own.
    pub(crate) subject_alternative_dns_names: Option<X509Extension>,

    /// Whether the certificate may act as a certificate authority; `false` unless set.
    pub(crate) ca: bool,

    /// The key material: a public key for a to-be-signed certificate, and a key pair otherwise.
    pub(crate) key_material: K,

    /// The state particular to what is built.
    pub(crate) use_case_state: C,
}

/// The state of a builder without subject.
#[derive(Clone, Copy, Debug)]
pub struct NoSubject;

impl<C, CP, K, S> Builder<C, CP, K, S> {
    #[verifier::type_invariant]
    pub(crate) closed spec fn extensions_wf(self) -> bool {
        &&& extensions_allowed(extensions_view(self.extensions@))
        &&& san_allowed(option_extension_view(self.subject_alternative_dns_names))
    }

    pub closed spec fn spec_crypto_provider(&self) -> CP {
        self.crypto_provider
    }

    pub closed spec fn spec_subject(&self) -> S {
        self.subject
    }

    /// The extensions set so far, in order.
    pub closed spec fn spec_extensions(&self) -> Seq<X509ExtensionView> {
        extensions_view(self.extensions@)
    }

    /// The subject alternative name extension set on its own, if any.
    pub closed spec fn spec_san(&self) -> Option<X509ExtensionView> {
        option_extension_view(self.subject_alternative_dns_names)
    }

    pub closed spec fn spec_ca(&self) -> bool {
        self.ca
    }

    pub closed spec fn spec_key_material(&self) -> K {
        self.key_material
    }

    pub closed spec fn spec_use_case_state(&self) -> C {
        self.use_case_state
    }
}

impl<C> Builder<C> {
    /// Without subject, extensions, subject alternative name or key material, and not marked as
    /// a certificate authority.
    pub open spec fn spec_is_fresh(&self) -> bool {
        &&& self.spec_extensions() == Seq::<X509ExtensionView>::empty()
        &&& self.spec_san() is None
        &&& !self.spec_ca()
    }

    pub(crate) fn new_for_use_case(use_case_state: C) -> (r: Self)
        ensures
            r.spec_is_fresh(),
            r.spec_use_case_state() == use_case_state,
    {
        let extensions: Vec<X509Extension> = Vec::new();
        assert(extensions_view(extensions@) =~= Seq::<X509ExtensionView>::empty());
        Builder {
            crypto_provider: NoCryptoProvider,
            subject: NoSubject,
            extensions,
            subject_alternative_dns_names: None,
            ca: false,
            key_material: NoKeyMaterial,
            use_case_state,
        }
    }
}

impl<C, CP, K> Builder<C, CP, K, NoSubject> {
    /// Sets the subject.
    pub fn with_subject(self, subject: Subject) -> (r: Builder<C, CP, K, Subject>)
        ensures
            r.spec_subject() == subject,
            r.spec_crypto_provider() == self.spec_crypto_provider(),
            r.spec_extensions() == self.spec_extensions(),
            r.spec_san() == self.spec_san(),
            r.spec_ca() == self.spec_ca(),
            r.spec_key_material() == self.spec_key_material(),
            r.spec_use_case_state() == self.spec_use_case_state(),
    {
        proof { use_type_invariant(&self); }
        let Builder {
            crypto_provider,
            subject: _,
            extensions,
            subject_alternative_dns_names,
            ca,
            key_material,
            use_case_state,
        } = self;
        Builder { crypto_provider, subject, extensions, subject_alternative_dns_names, ca, key_material, use_case_state }
    }
}

impl<C, K, S> Builder<C, NoCryptoProvider, K, S> {
    /// Sets the cryptographic backend.
    pub fn with_crypto_provider<CP: CryptoProvider>(self, crypto_provider: CP) -> (r: Builder<C, CP, K, S>)
        ensures
            r.spec_crypto_provider() == crypto_provider,
            r.spec_subject() == self.spec_subject(),
            r.spec_extensions() == self.spec_extensions(),
            r.spec_san() == self.spec_san(),
            r.spec_ca() == self.spec_ca(),
            r.spec_key_material() == self.spec_key_material(),
            r.spec_use_case_state() == self.spec_use_case_state(),
    {
        proof { use_type_invariant(&self); }
        let Builder {
            crypto_provider: _,
            subject,
            extensions,
            subject_alternative_dns_names,
            ca,
            key_material,
            use_case_state,
        } = self;
        Builder { crypto_provider, subject, extensions, subject_alternative_dns_names, ca, key_material, use_case_state }
    }
}

impl<C, CP, K, S> Builder<C, CP, K, S> {
    /// Marks the certificate as one of a certificate authority.
    pub fn make_ca_certificate(self) -> (r: Self)
        ensures
            r.spec_ca(),
            r.spec_crypto_provider() == self.spec_crypto_provider(),
            r.spec_subject() == self.spec_subject(),
            r.spec_extensions() == self.spec_extensions(),
            r.spec_san() == self.spec_san(),
            r.spec_key_material() == self.spec_key_material(),
            r.spec_use_case_state() == self.spec_use_case_state(),
    {
        let mut b = self;
        proof { use_type_invariant(&b); }
        b.ca = true;
        b
    }

    /// Replaces the extensions by `extensions`, refusing the first whose identifier occurs
    /// earlier among them or is that of BasicConstraints.
    pub fn with_extensions(self, extensions: Vec<X509Extension>) -> (r: Result<Self, Error>)
        ensures
            match first_duplicate_key(Seq::empty(), oids_of(extensions@), spec_basic_constraints_oid()) {
                Some(k) => r matches Err(e) && is_duplicate_extension_error(e, k),
                None => r matches Ok(b) && {
                    &&& b.spec_extensions() == extensions_view(extensions@)
                    &&& extensions_allowed(b.spec_extensions())
                    &&& b.spec_crypto_provider() == self.spec_crypto_provider()
                    &&& b.spec_subject() == self.spec_subject()
                    &&& b.spec_san() == self.spec_san()
                    &&& b.spec_ca() == self.spec_ca()
                    &&& b.spec_key_material() == self.spec_key_material()
                    &&& b.spec_use_case_state() == self.spec_use_case_state()
                },
            },
    {
        proof { use_type_invariant(&self); }
        let Builder {
            crypto_provider,
            subject,
            extensions: _,
            subject_alternative_dns_names,
            ca,
            key_material,
            use_case_state,
        } = self;
        let empty: Vec<X509Extension> = Vec::new();
        assert(extensions_view(empty@) =~= Seq::<X509ExtensionView>::empty());
        let reset = Builder {
            crypto_provider,
            subject,
            extensions: empty,
            subject_alternative_dns_names,
            ca,
            key_material,
            use_case_state,
        };
        assert(extension_oids(reset.spec_extensions()) =~= Seq::<Seq<u64>>::empty());
        let r = reset.append_extensions(extensions);
        proof {
            if r is Ok {
                assert(Seq::<X509ExtensionView>::empty() + extensions_view(extensions@) =~= extensions_view(extensions@));
            }
        }
        r
    }

    /// Appends `extensions`, refusing the first whose identifier is already present, occurs
    /// earlier among them or is that of BasicConstraints.
    pub fn append_extensions(self, extensions: Vec<X509Extension>) -> (r: Result<Self, Error>)
        ensures
            match first_duplicate_key(extension_oids(self.spec_extensions()), oids_of(extensions@), spec_basic_constraints_oid()) {
                Some(k) => r matches Err(e) && is_duplicate_extension_error(e, k),
                None => r matches Ok(b) && {
                    &&& b.spec_extensions() == self.spec_extensions() + extensions_view(extensions@)
                    &&& extensions_allowed(b.spec_extensions())
                    &&& b.spec_crypto_provider() == self.spec_crypto_provider()
                    &&& b.spec_subject() == self.spec_subject()
                    &&& b.spec_san() == self.spec_san()
                    &&& b.spec_ca() == self.spec_ca()
                    &&& b.spec_key_material() == self.spec_key_material()
                    &&& b.spec_use_case_state() == self.spec_use_case_state()
                },
            },
    {
        proof { use_type_invariant(&self); }
        let ghost old_self = self;
        let Builder {
            crypto_provider,
            subject,
            extensions: mut extensions_vec,
            subject_alternative_dns_names,
            ca,
            key_material,
            use_case_state,
        } = self;
        let bc = basic_constraints_oid();
        let ghost start = extensions_view(extensions_vec@);
        let ghost existing = extension_oids(start);
        let ghost added = oids_of(extensions@);
        let ghost new_views = extensions_view(extensions@);
        assert(added.len() == extensions@.len());
        let mut i: usize = 0;
        assert(existing + added.take(0) =~= existing);
        assert(added.skip(0) =~= added);
        assert(start + new_views.take(0) =~= start);
        while i < extensions.len()
            invariant
                0 <= i <= extensions@.len(),
                added == oids_of(extensions@),
                new_views == extensions_view(extensions@),
                added.len() == extensions@.len(),
                bc@ == spec_basic_constraints_oid(),
                start == old_self.spec_extensions(),
                old_self == self,
                existing == extension_oids(start),
                extensions_view(extensions_vec@) == start + new_views.take(i as int),
                extension_oids(extensions_view(extensions_vec@)) == existing + added.take(i as int),
                first_duplicate_key(existing, added, bc@)
                    == first_duplicate_key(existing + added.take(i as int), added.skip(i as int), bc@),
            decreases extensions@.len() - i,
        {
            let cur = &extensions[i];
            assert(added[i as int] == cur.oid@);
            if extensions_contain_key(extensions_vec.as_slice(), cur.oid.as_slice()) || oid_eq(cur.oid.as_slice(), bc.as_slice()) {
                assert(added.skip(i as int)[0] == added[i as int]);
                assert(added.skip(i as int).len() > 0);
                return Err(Error::Validation(ValidationErrorType::DuplicateExtension(copy_oid(&cur.oid))));
            }
            proof {
                lemma_first_duplicate_key_step(existing, added, bc@, i as int);
            }
            let ghost before = extensions_vec@;
            let copy = cur.duplicate();
            extensions_vec.push(copy);
            assert(extensions_vec@ == before.push(copy));
            assert(extensions_view(extensions_vec@) =~= extensions_view(before).push(copy@));
            assert(new_views.take(i + 1) =~= new_views.take(i as int).push(new_views[i as int]));
            assert(added.take(i + 1) =~= added.take(i as int).push(added[i as int]));
            assert(extension_oids(extensions_view(extensions_vec@)) =~= extension_oids(extensions_view(before)).push(copy@.oid));
            i = i + 1;
        }
        proof {
            assert(added.take(i as int) =~= added);
            assert(new_views.take(i as int) =~= new_views);
            assert(added.skip(i as int) =~= Seq::<Seq<u64>>::empty());
            lemma_append_keeps_keys_valid(existing, added, bc@);
        }
        Ok(Builder {
            crypto_provider,
            subject,
            extensions: extensions_vec,
            subject_alternative_dns_names,
            ca,
            key_material,
            use_case_state,
        })
    }

    /// Sets the subject alternative name extension listing `sans`.
    pub fn with_san_extension_from_general_names(self, sans: Vec<AltName>) -> (r: Self)
        requires general_names_encodable(general_names_view(sans@)),
        ensures
            r.spec_san() == Some(spec_san_extension(general_names_view(sans@))),
            general_names_view(sans@).len() == sans@.len(),
            forall|i: int| 0 <= i < sans@.len() ==> #[trigger] general_names_view(sans@)[i] == sans@[i]@,
            r.spec_crypto_provider() == self.spec_crypto_provider(),
            r.spec_subject() == self.spec_subject(),
            r.spec_extensions() == self.spec_extensions(),
            r.spec_ca() == self.spec_ca(),
            r.spec_key_material() == self.spec_key_material(),
            r.spec_use_case_state() == self.spec_use_case_state(),
    {
        let san_extension = san_extension_from_general_names(sans);
        let mut b = self;
        proof { use_type_invariant(&b); }
        b.subject_alternative_dns_names = Some(san_extension);
        b
    }

    /// Sets the subject alternative name extension listing the DNS names `sans`.
    pub fn with_san_extension_from_strs(self, sans: &[&str]) -> (r: Self)
        ensures
            r.spec_san() == Some(spec_san_extension(dns_names_view(sans@))),
            dns_names_view(sans@).len() == sans@.len(),
            forall|i: int| 0 <= i < sans@.len() ==>
                #[trigger] dns_names_view(sans@)[i] == AltNameView::DnsName(sans@[i]@),
            r.spec_crypto_provider() == self.spec_crypto_provider(),
            r.spec_subject() == self.spec_subject(),
            r.spec_extensions() == self.spec_extensions(),
            r.spec_ca() == self.spec_ca(),
            r.spec_key_material() == self.spec_key_material(),
            r.spec_use_case_state() == self.spec_use_case_state(),
    {
        let mut names: Vec<AltName> = Vec::new();
        let mut i: usize = 0;
        while i < sans.len()
            invariant
                0 <= i <= sans@.len(),
                names@.len() == i,
                general_names_view(names@) == dns_names_view(sans@).take(i as int),
            decreases sans@.len() - i,
        {
            let ghost before = names@;
            let text = String::from_str(sans[i]);
            let name = AltName::DnsName(text);
            names.push(name);
            assert(names@ == before.push(name));
            assert(name@ == AltNameView::DnsName(sans@[i as int]@));
            assert forall|j: int| 0 <= j < i implies general_names_view(names@)[j] == general_names_view(before)[j] by {
                assert(names@[j] == before[j]);
            }
            assert(general_names_view(names@) =~= dns_names_view(sans@).take(i + 1));
            i = i + 1;
        }
        assert(dns_names_view(sans@).take(i as int) =~= dns_names_view(sans@));
        assert forall|j: int| 0 <= j < general_names_view(names@).len()
            implies general_name_encodable(#[trigger] general_names_view(names@)[j]) by {
            assert(general_names_view(names@)[j] == dns_names_view(sans@)[j]);
        }
        self.with_san_extension_from_general_names(names)
    }

    pub(crate) fn with_key_material<K2>(self, new_key_material: K2) -> (r: Builder<C, CP, K2, S>)
        ensures
            r.spec_key_material() == new_key_material,
            r.spec_crypto_provider() == self.spec_crypto_provider(),
            r.spec_subject() == self.spec_subject(),
            r.spec_extensions() == self.spec_extensions(),
            r.spec_san() == self.spec_san(),
            r.spec_ca() == self.spec_ca(),
            r.spec_use_case_state() == self.spec_use_case_state(),
    {
        self.swap_key_material(new_key_material).0
    }

    pub(crate) fn with_key_material_fun<K2, UpdateFun: FnOnce(K) -> K2>(self, new_key_material_fun: UpdateFun) -> (r: Builder<C, CP, K2, S>)
        requires
            call_requires(new_key_material_fun, (self.spec_key_material(),)),
        ensures
            call_ensures(new_key_material_fun, (self.spec_key_material(),), r.spec_key_material()),
            r.spec_crypto_provider() == self.spec_crypto_provider(),
            r.spec_subject() == self.spec_subject(),
            r.spec_extensions() == self.spec_extensions(),
            r.spec_san() == self.spec_san(),
            r.spec_ca() == self.spec_ca(),
            r.spec_use_case_state() == self.spec_use_case_state(),
    {
        let (builder_without_key_material, old_key_material) = self.swap_key_material(NoKeyMaterial);
        let new_key_material = new_key_material_fun(old_key_material);
        let (builder_with_new_material, _) = builder_without_key_material.swap_key_material(new_key_material);
        builder_with_new_material
    }

    pub(crate) fn swap_key_material<K2>(self, new_key_material: K2) -> (r: (Builder<C, CP, K2, S>, K))
        ensures
            r.0.spec_key_material() == new_key_material,
            r.1 == self.spec_key_material(),
            r.0.spec_crypto_provider() == self.spec_crypto_provider(),
            r.0.spec_subject() == self.spec_subject(),
            r.0.spec_extensions() == self.spec_extensions(),
            r.0.spec_san() == self.spec_san(),
            r.0.spec_ca() == self.spec_ca(),
            r.0.spec_use_case_state() == self.spec_use_case_state(),
    {
        proof { use_type_invariant(&self); }
        let Builder {
            crypto_provider,
            subject,
            extensions,
            subject_alternative_dns_names,
            ca,
            key_material: old_key_material,
            use_case_state,
        } = self;
        (
            Builder {
                crypto_provider,
                subject,
                extensions,
                subject_alternative_dns_names,
                ca,
                key_material: new_key_material,
                use_case_state,
            },
            old_key_material,
        )
    }
}

impl<C, CP, K, S> Builder<C, CP, K, S> {
    /// Exchanges the use-case state for `new_state`.
    pub(crate) fn swap_use_case_state<C2>(self, new_state: C2) -> (r: (Builder<C2, CP, K, S>, C))
        ensures
            same_but_state(r.0, self),
            r.0.spec_use_case_state() == new_state,
            r.1 == self.spec_use_case_state(),
    {
        proof { use_type_invariant(&self); }
        let Builder {
            crypto_provider,
            subject,
            extensions,
            subject_alternative_dns_names,
            ca,
            key_material,
            use_case_state,
        } = self;
        (
            Builder {
                crypto_provider,
                subject,
                extensions,
                subject_alternative_dns_names,
                ca,
                key_material,
                use_case_state: new_state,
            },
            use_case_state,
        )
    }

    /// Exchanges the cryptographic backend for `new_crypto_provider`; nothing else changes.
    pub(crate) fn swap_crypto_provider<CP2>(self, new_crypto_provider: CP2) -> (r: (Builder<C, CP2, K, S>, CP))
        ensures
            r.0.spec_crypto_provider() == new_crypto_provider,
            r.1 == self.spec_crypto_provider(),
            r.0.spec_subject() == self.spec_subject(),
            r.0.spec_extensions() == self.spec_extensions(),
            r.0.spec_san() == self.spec_san(),
            r.0.spec_ca() == self.spec_ca(),
            r.0.spec_key_material() == self.spec_key_material(),
            r.0.spec_use_case_state() == self.spec_use_case_state(),
    {
        proof { use_type_invariant(&self); }
        let Builder {
            crypto_provider,
            subject,
            extensions,
            subject_alternative_dns_names,
            ca,
            key_material,
            use_case_state,
        } = self;
        (
            Builder {
                crypto_provider: new_crypto_provider,
                subject,
                extensions,
                subject_alternative_dns_names,
                ca,
                key_material,
                use_case_state,
            },
            crypto_provider,
        )
    }

    /// The subject.
    pub(crate) fn subject_ref(&self) -> (r: &S)
        ensures *r == self.spec_subject(),
    {
        &self.subject
    }

    /// All parts of the builder, which satisfy what the builder keeps of them.
    pub(crate) fn into_parts(self) -> (r: (CP, S, Vec<X509Extension>, Option<X509Extension>, bool, K, C))
        ensures
            r.0 == self.spec_crypto_provider(),
            r.1 == self.spec_subject(),
            extensions_view(r.2@) == self.spec_extensions(),
            option_extension_view(r.3) == self.spec_san(),
            r.4 == self.spec_ca(),
            r.5 == self.spec_key_material(),
            r.6 == self.spec_use_case_state(),
            extensions_allowed(extensions_view(r.2@)),
            san_allowed(option_extension_view(r.3)),
    {
        proof { use_type_invariant(&self); }
        let Builder {
            crypto_provider,
            subject,
            extensions,
            subject_alternative_dns_names,
            ca,
            key_material,
            use_case_state,
        } = self;
        (crypto_provider, subject, extensions, subject_alternative_dns_names, ca, key_material, use_case_state)
    }
}

} // verus!
