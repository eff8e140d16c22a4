//! The error type of the library.

use vstd::prelude::*;
use vstd::string::StringExecFns;

verus! {

#[verifier::external_type_specification]
#[verifier::external_body]
pub struct ExTraceError(opentelemetry_sdk::trace::TraceError);

#[verifier::external_type_specification]
#[verifier::external_body]
pub struct ExExporterBuildError(opentelemetry_otlp::ExporterBuildError);

/// What can go wrong while an exporter is configured or built.
#[derive(Debug)]
pub enum Error {
    /// Environment variable is missing.
    MissingEnvironmentVariable(&'static str),
    /// Required configuration is missing.
    MissingConfiguration(&'static str),
    /// OpenTelemetry trace error.
    OpenTelemetry(opentelemetry_sdk::trace::TraceError),
    /// OTLP exporter build error.
    OtlpExporter(opentelemetry_otlp::ExporterBuildError),
    /// Exporter error for async operations.
    ExporterError(String),
}

/// Result type alias for the operations of this library.
pub type Result<T> = std::result::Result<T, Error>;

/// `ToString::to_string` of the trace error: the text that its `Display` writes.
#[verifier::external_body]
pub(crate) fn trace_error_text(error: &opentelemetry_sdk::trace::TraceError) -> String {
    error.to_string()
}

/// `ToString::to_string` of the build error: the text that its `Display` writes.
#[verifier::external_body]
fn build_error_text(error: &opentelemetry_otlp::ExporterBuildError) -> String {
    error.to_string()
}

impl Error {
    /// The fixed words with which the message of this kind of error begins.
    pub open spec fn prefix(&self) -> Seq<char> {
        match self {
            Error::MissingEnvironmentVariable(_) => "Missing environment variable: "@,
            Error::MissingConfiguration(_) => "Missing configuration: "@,
            Error::OpenTelemetry(_) => "OpenTelemetry error: "@,
            Error::OtlpExporter(_) => "OTLP exporter error: "@,
            Error::ExporterError(_) => "Exporter error: "@,
        }
    }

    /// A message for people: the kind of error, then what it is about.
    ///
    /// For the two kinds that wrap an error of OpenTelemetry, what follows the
    /// prefix is that error's own text.
    pub fn message(&self) -> (text: String)
        ensures
            self.prefix().is_prefix_of(text@),
            self matches Error::MissingEnvironmentVariable(name) ==> text@ == self.prefix() + name@,
            self matches Error::MissingConfiguration(what) ==> text@ == self.prefix() + what@,
            self matches Error::ExporterError(reason) ==> text@ == self.prefix() + reason@,
    {
        match self {
            Error::MissingEnvironmentVariable(name) => {
                let mut text = String::from_str("Missing environment variable: ");
                text.append(name);
                text
            },
            Error::MissingConfiguration(what) => {
                let mut text = String::from_str("Missing configuration: ");
                text.append(what);
                text
            },
            Error::OpenTelemetry(inner) => {
                let mut text = String::from_str("OpenTelemetry error: ");
                let detail = trace_error_text(inner);
                text.append(detail.as_str());
                text
            },
            Error::OtlpExporter(inner) => {
                let mut text = String::from_str("OTLP exporter error: ");
                let detail = build_error_text(inner);
                text.append(detail.as_str());
                text
            },
            Error::ExporterError(reason) => {
                let mut text = String::from_str("Exporter error: ");
                text.append(reason.as_str());
                text
            },
        }
    }
}

} // verus!
