//! The OTP credential entity: a flat mutable record with pure derivation
//! of the `otpauth://` provisioning URI and of a QR text rendering.

use vstd::prelude::*;

verus! {

use crate::percent::percent_encode;
use crate::percent::spec_percent_encode;
use crate::qr::QrEncodeError;
use crate::qr::qr_accepts;
use crate::qr::qr_text_of;
use crate::qr::render_qr_text;
use crate::text::ascii_lowercase;
use crate::text::ascii_uppercase;
use crate::text::dec_digits;
use crate::text::push_decimal;
use crate::text::spec_lower;
use crate::text::spec_upper;
use crate::text::strip_pad;
use crate::text::strip_padding;

/// The four recognized OTP variants.
#[derive(Clone, Copy, Debug, PartialEq, Eq, Structural)]
pub enum OTPType {
    TOTP,
    HOTP,
    STEAM,
    YANDEX,
}

/// The variant named by `s`, read case-insensitively; `None` for any
/// other text, which the model accepts structurally but renders as an
/// unrecognized URI scheme segment.
pub open spec fn spec_type_tag(s: Seq<char>) -> Option<OTPType> {
    if spec_lower(s) == "totp"@ {
        Some(OTPType::TOTP)
    } else if spec_lower(s) == "hotp"@ {
        Some(OTPType::HOTP)
    } else if spec_lower(s) == "steam"@ {
        Some(OTPType::STEAM)
    } else if spec_lower(s) == "yandex"@ {
        Some(OTPType::YANDEX)
    } else {
        None
    }
}

/// One OTP credential entry.
pub struct OTPElement {
    secret: String,
    issuer: String,
    label: String,
    digits: u64,
    type_: String,
    algorithm: String,
    thumbnail: String,
    last_used: u64,
    used_frequency: u64,
    period: u64,
    counter: Option<u64>,
    tags: Vec<String>,
    yandex_pin: Option<String>,
}

/// The mathematical value of one credential: every stored field, strings
/// as character sequences.
#[verifier::ext_equal]
pub ghost struct OTPElementView {
    pub secret: Seq<char>,
    pub issuer: Seq<char>,
    pub label: Seq<char>,
    pub digits: u64,
    pub type_: Seq<char>,
    pub algorithm: Seq<char>,
    pub thumbnail: Seq<char>,
    pub last_used: u64,
    pub used_frequency: u64,
    pub period: u64,
    pub counter: Option<u64>,
    pub tags: Seq<Seq<char>>,
    pub yandex_pin: Option<Seq<char>>,
}

impl View for OTPElement {
    type V = OTPElementView;

    closed spec fn view(&self) -> OTPElementView {
        OTPElementView {
            secret: self.secret@,
            issuer: self.issuer@,
            label: self.label@,
            digits: self.digits,
            type_: self.type_@,
            algorithm: self.algorithm@,
            thumbnail: self.thumbnail@,
            last_used: self.last_used,
            used_frequency: self.used_frequency,
            period: self.period,
            counter: self.counter,
            tags: self.tags.deep_view(),
            yandex_pin: self.yandex_pin.deep_view(),
        }
    }
}

/// The counter consulted for HOTP: the stored value, or zero when absent.
pub open spec fn spec_counter_or_zero(counter: Option<u64>) -> u64 {
    match counter {
        Some(n) => n,
        None => 0,
    }
}

/// The scheme and location part of the URI: `otpauth://`, the type in
/// lower case, `/`, then the percent-encoded issuer followed by `:` when
/// the issuer is non-empty, then the percent-encoded label.
pub open spec fn spec_uri_prefix(e: OTPElementView) -> Seq<char> {
    "otpauth://"@ + spec_lower(e.type_) + "/"@ + (if e.issuer.len() > 0 {
        spec_percent_encode(e.issuer) + ":"@
    } else {
        Seq::empty()
    }) + spec_percent_encode(e.label)
}

/// The fixed-order query part common to every type: the padding-stripped
/// secret, the algorithm in upper case, digits, period, and the literal
/// `lock=false` flag.
pub open spec fn spec_uri_query(e: OTPElementView) -> Seq<char> {
    "?secret="@ + strip_pad(e.secret) + "&algorithm="@ + spec_upper(e.algorithm) + "&digits="@
        + dec_digits(e.digits as nat) + "&period="@ + dec_digits(e.period as nat) + "&lock=false"@
}

/// The full `otpauth://` URI; a `counter` parameter is appended if and
/// only if the type reads HOTP case-insensitively.
pub open spec fn spec_otpauth_uri(e: OTPElementView) -> Seq<char> {
    spec_uri_prefix(e) + spec_uri_query(e) + (if spec_lower(e.type_) == "hotp"@ {
        "&counter="@ + dec_digits(spec_counter_or_zero(e.counter) as nat)
    } else {
        Seq::empty()
    })
}

impl OTPElement {
    /// Builds a credential from its required fields; thumbnail, usage
    /// metadata and tags start at empty defaults. Never fails, whatever
    /// the field values hold.
    pub fn new(
        secret: String,
        issuer: String,
        label: String,
        digits: u64,
        type_: String,
        algorithm: String,
        period: u64,
        counter: Option<u64>,
        yandex_pin: Option<String>,
    ) -> (r: OTPElement)
        ensures
            r@ == (OTPElementView {
                secret: secret@,
                issuer: issuer@,
                label: label@,
                digits: digits,
                type_: type_@,
                algorithm: algorithm@,
                thumbnail: Seq::empty(),
                last_used: 0,
                used_frequency: 0,
                period: period,
                counter: counter,
                tags: Seq::empty(),
                yandex_pin: yandex_pin.deep_view(),
            }),
    {
        let r = OTPElement {
            secret,
            issuer,
            label,
            digits,
            type_,
            algorithm,
            thumbnail: String::new(),
            last_used: 0,
            used_frequency: 0,
            period,
            counter,
            tags: Vec::new(),
            yandex_pin,
        };
        proof {
            assert(r.tags.deep_view() =~= Seq::<Seq<char>>::empty());
            assert(r@ =~~= (OTPElementView {
                secret: r.secret@,
                issuer: r.issuer@,
                label: r.label@,
                digits: r.digits,
                type_: r.type_@,
                algorithm: r.algorithm@,
                thumbnail: Seq::empty(),
                last_used: 0,
                used_frequency: 0,
                period: r.period,
                counter: r.counter,
                tags: Seq::empty(),
                yandex_pin: r.yandex_pin.deep_view(),
            }));
        }
        r
    }

    /// The stored secret with every `=` padding character stripped; the
    /// stored value itself is left as it is.
    pub fn secret(&self) -> (r: String)
        ensures
            r@ == strip_pad(self@.secret),
    {
        strip_padding(self.secret.as_str())
    }

    /// The stored secret, verbatim: padding characters are kept. This is
    /// the value external storage persists; display and URI derivation go
    /// through the stripping accessor instead.
    pub fn raw_secret(&self) -> (r: String)
        ensures
            r@ == self@.secret,
    {
        self.secret.clone()
    }

    /// The stored label, verbatim.
    pub fn label(&self) -> (r: String)
        ensures
            r@ == self@.label,
    {
        self.label.clone()
    }

    /// The stored issuer, verbatim.
    pub fn issuer(&self) -> (r: String)
        ensures
            r@ == self@.issuer,
    {
        self.issuer.clone()
    }

    /// The stored code length.
    pub fn digits(&self) -> (r: u64)
        ensures
            r == self@.digits,
    {
        self.digits
    }

    /// The stored algorithm name, verbatim.
    pub fn algorithm(&self) -> (r: String)
        ensures
            r@ == self@.algorithm,
    {
        self.algorithm.clone()
    }

    /// The stored type text, verbatim.
    pub fn type_(&self) -> (r: String)
        ensures
            r@ == self@.type_,
    {
        self.type_.clone()
    }

    /// The stored counter, if any.
    pub fn counter(&self) -> (r: Option<u64>)
        ensures
            r == self@.counter,
    {
        self.counter
    }

    /// The stored refresh period in seconds.
    pub fn period(&self) -> (r: u64)
        ensures
            r == self@.period,
    {
        self.period
    }

    /// The stored Yandex pin, if any.
    pub fn yandex_pin(&self) -> (r: Option<String>)
        ensures
            r.deep_view() == self@.yandex_pin,
    {
        match &self.yandex_pin {
            Some(p) => Some(p.clone()),
            None => None,
        }
    }

    /// The stored thumbnail text, verbatim.
    pub fn thumbnail(&self) -> (r: String)
        ensures
            r@ == self@.thumbnail,
    {
        self.thumbnail.clone()
    }

    /// The stored last-use timestamp.
    pub fn last_used(&self) -> (r: u64)
        ensures
            r == self@.last_used,
    {
        self.last_used
    }

    /// The stored use count.
    pub fn used_frequency(&self) -> (r: u64)
        ensures
            r == self@.used_frequency,
    {
        self.used_frequency
    }

    /// The stored tags, verbatim and in order.
    pub fn tags(&self) -> (r: Vec<String>)
        ensures
            r.deep_view() == self@.tags,
    {
        let n: usize = self.tags.len();
        let mut r: Vec<String> = Vec::new();
        let mut i: usize = 0;
        while i < n
            invariant
                n == self.tags.len(),
                i <= n,
                r@.len() == i,
                forall|j: int| 0 <= j < i ==> r@[j]@ == self.tags@[j]@,
            decreases n - i,
        {
            r.push(self.tags[i].clone());
            i = i + 1;
        }
        proof {
            assert(r.deep_view() =~= self@.tags);
        }
        r
    }

    /// Replaces the stored secret; every other field is kept.
    pub fn set_secret(&mut self, secret: String)
        ensures
            final(self)@ == (OTPElementView { secret: secret@, ..old(self)@ }),
    {
        self.secret = secret;
    }

    /// Replaces the stored label; every other field is kept.
    pub fn set_label(&mut self, label: String)
        ensures
            final(self)@ == (OTPElementView { label: label@, ..old(self)@ }),
    {
        self.label = label;
    }

    /// Replaces the stored issuer; every other field is kept.
    pub fn set_issuer(&mut self, issuer: String)
        ensures
            final(self)@ == (OTPElementView { issuer: issuer@, ..old(self)@ }),
    {
        self.issuer = issuer;
    }

    /// Replaces the stored algorithm name; every other field is kept.
    pub fn set_algorithm(&mut self, algorithm: String)
        ensures
            final(self)@ == (OTPElementView { algorithm: algorithm@, ..old(self)@ }),
    {
        self.algorithm = algorithm;
    }

    /// Replaces the stored code length; every other field is kept.
    pub fn set_digits(&mut self, digits: u64)
        ensures
            final(self)@ == (OTPElementView { digits: digits, ..old(self)@ }),
    {
        self.digits = digits;
    }

    /// Replaces the stored counter; every other field is kept.
    pub fn set_counter(&mut self, counter: Option<u64>)
        ensures
            final(self)@ == (OTPElementView { counter: counter, ..old(self)@ }),
    {
        self.counter = counter;
    }

    /// Replaces the stored thumbnail; every other field is kept.
    pub fn set_thumbnail(&mut self, thumbnail: String)
        ensures
            final(self)@ == (OTPElementView { thumbnail: thumbnail@, ..old(self)@ }),
    {
        self.thumbnail = thumbnail;
    }

    /// Replaces the stored last-use timestamp; every other field is kept.
    pub fn set_last_used(&mut self, last_used: u64)
        ensures
            final(self)@ == (OTPElementView { last_used: last_used, ..old(self)@ }),
    {
        self.last_used = last_used;
    }

    /// Replaces the stored use count; every other field is kept.
    pub fn set_used_frequency(&mut self, used_frequency: u64)
        ensures
            final(self)@ == (OTPElementView { used_frequency: used_frequency, ..old(self)@ }),
    {
        self.used_frequency = used_frequency;
    }

    /// Replaces the stored tags; every other field is kept.
    pub fn set_tags(&mut self, tags: Vec<String>)
        ensures
            final(self)@ == (OTPElementView { tags: tags.deep_view(), ..old(self)@ }),
    {
        self.tags = tags;
    }

    /// Derives the `otpauth://` URI from the stored fields. Pure and
    /// total: it succeeds for every stored value, empty strings included.
    pub fn get_otpauth_uri(&self) -> (uri: String)
        ensures
            uri@ == spec_otpauth_uri(self@),
    {
        let mut uri = String::from_str("otpauth://");
        let lower_type = ascii_lowercase(self.type_.as_str());
        uri.append(lower_type.as_str());
        uri.append("/");
        if !self.issuer.as_str().is_empty() {
            let enc_issuer = percent_encode(self.issuer.as_str());
            uri.append(enc_issuer.as_str());
            uri.append(":");
        }
        let enc_label = percent_encode(self.label.as_str());
        uri.append(enc_label.as_str());
        proof {
            assert(uri@ =~= spec_uri_prefix(self@));
        }
        uri.append("?secret=");
        let stripped = strip_padding(self.secret.as_str());
        uri.append(stripped.as_str());
        uri.append("&algorithm=");
        let upper_algorithm = ascii_uppercase(self.algorithm.as_str());
        uri.append(upper_algorithm.as_str());
        uri.append("&digits=");
        push_decimal(&mut uri, self.digits);
        uri.append("&period=");
        push_decimal(&mut uri, self.period);
        uri.append("&lock=false");
        proof {
            assert(uri@ =~= spec_uri_prefix(self@) + spec_uri_query(self@));
        }
        let hotp_name = String::from_str("hotp");
        if lower_type == hotp_name {
            uri.append("&counter=");
            let c: u64 = match self.counter {
                Some(n) => n,
                None => 0,
            };
            push_decimal(&mut uri, c);
        }
        assert(uri@ =~= spec_otpauth_uri(self@));
        uri
    }

    /// Renders the derived URI as a QR text block. It succeeds if and
    /// only if the encoder accepts the URI, and reports the one failure
    /// of the model, the encoder rejecting the payload, as a recoverable
    /// error.
    pub fn get_qrcode(&self) -> (r: Result<String, QrEncodeError>)
        ensures
            r is Ok <==> qr_accepts(spec_otpauth_uri(self@)),
            r matches Ok(text) ==> text@ == qr_text_of(spec_otpauth_uri(self@)),
            r matches Err(e) ==> e == QrEncodeError::PayloadRejected,
    {
        let uri = self.get_otpauth_uri();
        render_qr_text(uri.as_str())
    }
}

/// No `counter` parameter stands in the URI of a credential whose type
/// does not read HOTP: the URI is exactly the common, counter-free form.
pub proof fn lemma_non_hotp_uri_has_no_counter(e: OTPElementView)
    requires
        spec_lower(e.type_) != "hotp"@,
    ensures
        spec_otpauth_uri(e) == spec_uri_prefix(e) + spec_uri_query(e),
{
    assert(spec_uri_prefix(e) + spec_uri_query(e) + Seq::<char>::empty() =~= spec_uri_prefix(e)
        + spec_uri_query(e));
}

/// A TOTP credential derives a URI with no `counter` parameter, whatever
/// its issuer, label, secret, algorithm, digits and period hold.
pub proof fn lemma_totp_uri_has_no_counter(e: OTPElementView)
    requires
        spec_type_tag(e.type_) == Some(OTPType::TOTP),
    ensures
        spec_otpauth_uri(e) == spec_uri_prefix(e) + spec_uri_query(e),
{
    reveal_strlit("totp");
    reveal_strlit("hotp");
    assert("totp"@[0] == 't' && "hotp"@[0] == 'h');
    lemma_non_hotp_uri_has_no_counter(e);
}

/// An HOTP credential derives a URI that ends in a `counter` parameter
/// whose value is the stored counter, or zero when the counter is absent.
pub proof fn lemma_hotp_uri_has_counter(e: OTPElementView)
    requires
        spec_type_tag(e.type_) == Some(OTPType::HOTP),
    ensures
        spec_otpauth_uri(e) == spec_uri_prefix(e) + spec_uri_query(e) + "&counter="@ + dec_digits(
            spec_counter_or_zero(e.counter) as nat,
        ),
{
    assert(spec_otpauth_uri(e) =~= spec_uri_prefix(e) + spec_uri_query(e) + "&counter="@
        + dec_digits(spec_counter_or_zero(e.counter) as nat));
}

/// With an empty issuer no `:`-terminated issuer segment is emitted: the
/// percent-encoded label follows the `/` of the scheme part directly.
pub proof fn lemma_empty_issuer_uri(e: OTPElementView)
    requires
        e.issuer.len() == 0,
    ensures
        spec_uri_prefix(e) == "otpauth://"@ + spec_lower(e.type_) + "/"@ + spec_percent_encode(
            e.label,
        ),
{
    assert(spec_uri_prefix(e) =~= "otpauth://"@ + spec_lower(e.type_) + "/"@ + spec_percent_encode(
        e.label,
    ));
}

/// The derived URI does not depend on the stored case of the algorithm:
/// two credentials equal but for the case of their algorithm letters
/// derive the same URI, with the algorithm emitted upper-cased in both.
pub proof fn lemma_uri_algorithm_case_insensitive(e1: OTPElementView, e2: OTPElementView)
    requires
        spec_lower(e1.algorithm) == spec_lower(e2.algorithm),
        e2 == (OTPElementView { algorithm: e2.algorithm, ..e1 }),
    ensures
        spec_otpauth_uri(e1) == spec_otpauth_uri(e2),
{
    crate::text::lemma_upper_case_insensitive(e1.algorithm, e2.algorithm);
}

/// The derived URI reads the type case-insensitively: two credentials
/// equal but for the case of their type text derive the same URI.
pub proof fn lemma_uri_type_case_insensitive(e1: OTPElementView, e2: OTPElementView)
    requires
        spec_lower(e1.type_) == spec_lower(e2.type_),
        e2 == (OTPElementView { type_: e2.type_, ..e1 }),
    ensures
        spec_otpauth_uri(e1) == spec_otpauth_uri(e2),
{
}

/// The secret as it stands in the URI, like the secret accessor's result,
/// holds no `=` character, whatever padding the stored secret carries.
pub proof fn lemma_uri_secret_has_no_padding(e: OTPElementView)
    ensures
        forall|i: int|
            0 <= i < strip_pad(e.secret).len() ==> strip_pad(e.secret)[i] != '=',
{
    crate::text::lemma_strip_pad_no_padding(e.secret);
}

} // verus!
