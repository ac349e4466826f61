//! What can go wrong while a request is handled.
use crate::text::{from_chars, push_str};
use vstd::prelude::*;

verus! {

/// Why a datagram is no usable SIP request.
#[derive(Clone, Copy, Debug, PartialEq, Eq, Structural)]
pub enum ParseError {
    /// The header block holds no Via field.
    MissingVia,
    /// The header block holds no Call-ID field.
    MissingCallId,
}

/// An error of the service. Variants that stand for a failure of a
/// collaborator carry its description as text.
#[derive(Debug)]
pub enum ServiceError {
    Config(String),
    Io(String),
    SipParse(ParseError),
    GrpcClient(String),
    GrpcStatus(String),
    RabbitMq(String),
    Redis(String),
    SerdeJson(String),
    InvalidHeader(String),
    TracingFilter(String),
    Generic(String),
}

impl ParseError {
    /// What the error says.
    pub open spec fn spec_message(self) -> Seq<char> {
        match self {
            ParseError::MissingVia => "Via başlığı bulunamadı"@,
            ParseError::MissingCallId => "Call-ID başlığı bulunamadı"@,
        }
    }

    /// The error as text.
    pub fn message(&self) -> (r: String)
        ensures
            r@ == self.spec_message(),
    {
        match self {
            ParseError::MissingVia => String::from_str("Via başlığı bulunamadı"),
            ParseError::MissingCallId => String::from_str("Call-ID başlığı bulunamadı"),
        }
    }
}

impl ServiceError {
    /// The text that introduces the detail of each kind of error.
    pub open spec fn spec_label(self) -> Seq<char> {
        match self {
            ServiceError::Config(_) => "Yapılandırma hatası: "@,
            ServiceError::Io(_) => "I/O hatası: "@,
            ServiceError::SipParse(_) => "SIP paketi ayrıştırılamadı: "@,
            ServiceError::GrpcClient(_) => "gRPC istemci hatası: "@,
            ServiceError::GrpcStatus(_) => "gRPC servis hatası: "@,
            ServiceError::RabbitMq(_) => "RabbitMQ hatası: "@,
            ServiceError::Redis(_) => "Redis hatası: "@,
            ServiceError::SerdeJson(_) => "Serileştirme hatası (serde_json): "@,
            ServiceError::InvalidHeader(_) => "Geçersiz başlık (Tonic): "@,
            ServiceError::TracingFilter(_) => "Loglama filtresi hatası: "@,
            ServiceError::Generic(_) => "Beklenmedik bir hata oluştu: "@,
        }
    }

    /// The detail that the error carries.
    pub open spec fn spec_detail(self) -> Seq<char> {
        match self {
            ServiceError::Config(d) => d@,
            ServiceError::Io(d) => d@,
            ServiceError::SipParse(e) => e.spec_message(),
            ServiceError::GrpcClient(d) => d@,
            ServiceError::GrpcStatus(d) => d@,
            ServiceError::RabbitMq(d) => d@,
            ServiceError::Redis(d) => d@,
            ServiceError::SerdeJson(d) => d@,
            ServiceError::InvalidHeader(d) => d@,
            ServiceError::TracingFilter(d) => d@,
            ServiceError::Generic(d) => d@,
        }
    }

    /// The error as one line of text: its label, then its detail.
    pub fn message(&self) -> (r: String)
        ensures
            r@ == self.spec_label() + self.spec_detail(),
    {
        let mut out: Vec<char> = Vec::new();
        match self {
            ServiceError::Config(d) => {
                push_str(&mut out, "Yapılandırma hatası: ");
                push_str(&mut out, d.as_str());
            },
            ServiceError::Io(d) => {
                push_str(&mut out, "I/O hatası: ");
                push_str(&mut out, d.as_str());
            },
            ServiceError::SipParse(e) => {
                push_str(&mut out, "SIP paketi ayrıştırılamadı: ");
                let m = e.message();
                push_str(&mut out, m.as_str());
            },
            ServiceError::GrpcClient(d) => {
                push_str(&mut out, "gRPC istemci hatası: ");
                push_str(&mut out, d.as_str());
            },
            ServiceError::GrpcStatus(d) => {
                push_str(&mut out, "gRPC servis hatası: ");
                push_str(&mut out, d.as_str());
            },
            ServiceError::RabbitMq(d) => {
                push_str(&mut out, "RabbitMQ hatası: ");
                push_str(&mut out, d.as_str());
            },
            ServiceError::Redis(d) => {
                push_str(&mut out, "Redis hatası: ");
                push_str(&mut out, d.as_str());
            },
            ServiceError::SerdeJson(d) => {
                push_str(&mut out, "Serileştirme hatası (serde_json): ");
                push_str(&mut out, d.as_str());
            },
            ServiceError::InvalidHeader(d) => {
                push_str(&mut out, "Geçersiz başlık (Tonic): ");
                push_str(&mut out, d.as_str());
            },
            ServiceError::TracingFilter(d) => {
                push_str(&mut out, "Loglama filtresi hatası: ");
                push_str(&mut out, d.as_str());
            },
            ServiceError::Generic(d) => {
                push_str(&mut out, "Beklenmedik bir hata oluştu: ");
                push_str(&mut out, d.as_str());
            },
        }
        assert(out@ == self.spec_label() + self.spec_detail()) by {
            assert(Seq::<char>::empty() + self.spec_label() == self.spec_label());
        }
        from_chars(&out)
    }
}

} // verus!
