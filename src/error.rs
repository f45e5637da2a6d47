//! Failure classification: a closed set of retry categories, each with a
//! retryability flag and a suggested delay.
use vstd::prelude::*;
use crate::text::{contains, decimal, decimal_text, has_infix, lemma_infix_within, lower_of, lowercase};
use vstd::string::*;

verus! {

/// Category of a failed fetch attempt.
#[derive(Debug, Clone, PartialEq)]
pub enum RetryableError {
    /// The connection attempt timed out.
    ConnectionTimeout,
    /// Name resolution failed.
    DnsFailed,
    /// The peer refused the connection.
    ConnectionRefused,
    /// The network path failed (unreachable, reset, closed).
    ConnectionFailed,
    /// A read timed out.
    ReadTimeout,
    /// A write timed out.
    WriteTimeout,
    /// The TLS handshake failed.
    TlsFailed,
    /// HTTP 429 Too Many Requests.
    TooManyRequests,
    /// A 5xx server status.
    ServerError(u16),
    /// The body could not be decoded.
    DecodingFailed(String),
    /// Anything that matched no other category.
    Unknown(String),
}

/// Mathematical picture of a [`RetryableError`], messages as character sequences.
pub enum Category {
    ConnectionTimeout,
    DnsFailed,
    ConnectionRefused,
    ConnectionFailed,
    ReadTimeout,
    WriteTimeout,
    TlsFailed,
    TooManyRequests,
    ServerError(u16),
    DecodingFailed(Seq<char>),
    Unknown(Seq<char>),
}

impl View for RetryableError {
    type V = Category;

    open spec fn view(&self) -> Category {
        match self {
            RetryableError::ConnectionTimeout => Category::ConnectionTimeout,
            RetryableError::DnsFailed => Category::DnsFailed,
            RetryableError::ConnectionRefused => Category::ConnectionRefused,
            RetryableError::ConnectionFailed => Category::ConnectionFailed,
            RetryableError::ReadTimeout => Category::ReadTimeout,
            RetryableError::WriteTimeout => Category::WriteTimeout,
            RetryableError::TlsFailed => Category::TlsFailed,
            RetryableError::TooManyRequests => Category::TooManyRequests,
            RetryableError::ServerError(c) => Category::ServerError(*c),
            RetryableError::DecodingFailed(m) => Category::DecodingFailed(m@),
            RetryableError::Unknown(m) => Category::Unknown(m@),
        }
    }
}

/// A status in the 5xx range.
pub open spec fn is_server_status(status: u16) -> bool {
    500 <= status <= 599
}

/// The category of a failure, from its lowercased message, the message as
/// received and an optional HTTP status; the first rule that applies wins.
pub open spec fn classify(lowered: Seq<char>, message: Seq<char>, status: Option<u16>) -> Category {
    if status == Some(429u16) {
        Category::TooManyRequests
    } else if status is Some && is_server_status(status.unwrap()) {
        Category::ServerError(status.unwrap())
    } else if has_infix(lowered, "connection timed out"@) {
        Category::ConnectionTimeout
    } else if has_infix(lowered, "timed out"@) {
        Category::ReadTimeout
    } else if has_infix(lowered, "dns"@) || has_infix(lowered, "name or service not known"@)
        || has_infix(lowered, "no address associated with name"@) {
        Category::DnsFailed
    } else if has_infix(lowered, "connection refused"@) {
        Category::ConnectionRefused
    } else if has_infix(lowered, "network is unreachable"@) || has_infix(lowered, "connection reset"@)
        || has_infix(lowered, "broken pipe"@) || has_infix(lowered, "connection closed"@) {
        Category::ConnectionFailed
    } else if has_infix(lowered, "tls"@) || has_infix(lowered, "ssl"@) || has_infix(
        lowered,
        "certificate"@,
    ) {
        Category::TlsFailed
    } else if has_infix(lowered, "decode"@) || has_infix(lowered, "utf"@) || has_infix(
        lowered,
        "invalid utf"@,
    ) || has_infix(lowered, "stream"@) {
        Category::DecodingFailed(message)
    } else {
        Category::Unknown(message)
    }
}

/// Every category but `Unknown` is worth another attempt.
pub open spec fn category_retryable(c: Category) -> bool {
    !(c is Unknown)
}

/// Suggested wait before the next attempt, in milliseconds.
pub open spec fn category_delay_ms(c: Category) -> u64 {
    match c {
        Category::TooManyRequests => 5000,
        Category::ServerError(_) => 2000,
        Category::ConnectionTimeout => 1000,
        Category::DnsFailed => 2000,
        Category::ConnectionRefused => 2000,
        Category::ConnectionFailed => 2000,
        Category::ReadTimeout => 1000,
        Category::WriteTimeout => 1000,
        Category::TlsFailed => 3000,
        Category::DecodingFailed(_) => 1000,
        Category::Unknown(_) => 0,
    }
}

impl RetryableError {
    /// Whether a failure of this category should be retried.
    pub fn is_retryable(&self) -> (r: bool)
        ensures
            r == category_retryable(self@),
    {
        match self {
            RetryableError::Unknown(_) => false,
            _ => true,
        }
    }

    /// Classifies a failure from its message and optional HTTP status, the
    /// message being matched case-insensitively.
    pub fn from_error_message(err_msg: &str, status: Option<u16>) -> (r: Self)
        ensures
            r@ == classify(lower_of(err_msg@), err_msg@, status),
    {
        if let Some(code) = status {
            if code == 429 {
                return RetryableError::TooManyRequests;
            }
            if 500 <= code && code <= 599 {
                return RetryableError::ServerError(code);
            }
        }
        let lowered = lowercase(err_msg);
        Self::from_lowered_message(lowered.as_str(), err_msg, status)
    }

    /// Classifies a failure whose message has already been lowercased;
    /// `err_msg` is the message as received, kept in the payload of the
    /// `DecodingFailed` and `Unknown` categories.
    pub fn from_lowered_message(lowered: &str, err_msg: &str, status: Option<u16>) -> (r: Self)
        ensures
            r@ == classify(lowered@, err_msg@, status),
    {
        if let Some(code) = status {
            if code == 429 {
                return RetryableError::TooManyRequests;
            }
            if 500 <= code && code <= 599 {
                return RetryableError::ServerError(code);
            }
        }
        if contains(lowered, "connection timed out") {
            RetryableError::ConnectionTimeout
        } else if contains(lowered, "timed out") {
            RetryableError::ReadTimeout
        } else if contains(lowered, "dns") || contains(lowered, "name or service not known")
            || contains(lowered, "no address associated with name") {
            RetryableError::DnsFailed
        } else if contains(lowered, "connection refused") {
            RetryableError::ConnectionRefused
        } else if contains(lowered, "network is unreachable") || contains(lowered, "connection reset")
            || contains(lowered, "broken pipe") || contains(lowered, "connection closed") {
            RetryableError::ConnectionFailed
        } else if contains(lowered, "tls") || contains(lowered, "ssl") || contains(
            lowered,
            "certificate",
        ) {
            RetryableError::TlsFailed
        } else if contains(lowered, "decode") || contains(lowered, "utf") || contains(
            lowered,
            "invalid utf",
        ) || contains(lowered, "stream") {
            RetryableError::DecodingFailed(err_msg.to_string())
        } else {
            RetryableError::Unknown(err_msg.to_string())
        }
    }

    /// Suggested wait before retrying, in milliseconds.
    pub fn suggested_delay_ms(&self) -> (r: u64)
        ensures
            r == category_delay_ms(self@),
    {
        match self {
            RetryableError::TooManyRequests => 5000,
            RetryableError::ServerError(_) => 2000,
            RetryableError::ConnectionTimeout => 1000,
            RetryableError::DnsFailed => 2000,
            RetryableError::ConnectionRefused => 2000,
            RetryableError::ConnectionFailed => 2000,
            RetryableError::ReadTimeout => 1000,
            RetryableError::WriteTimeout => 1000,
            RetryableError::TlsFailed => 3000,
            RetryableError::DecodingFailed(_) => 1000,
            RetryableError::Unknown(_) => 0,
        }
    }
}

/// Errors of the library; paths, URLs and messages are carried as text.
#[derive(Debug, Clone, PartialEq)]
pub enum AppError {
    /// The configuration file could not be loaded.
    ConfigError { path: String, details: String },
    /// The configuration text is not valid TOML for the expected shape.
    TomlError(String),
    /// A date text is not of the form `YYYY-MM-DD`.
    InvalidDate { input: String, details: String },
    /// A request failed before a status was received, or its body could not be read.
    NetworkError { url: String, details: String },
    /// The server answered with a failure status.
    HttpError { url: String, status: u16 },
    /// A file operation failed.
    FileError { path: String, details: String },
    /// An I/O operation failed.
    IoError(String),
    /// Embedded metadata could not be written.
    ExifError { path: String, details: String },
    /// A filename template is unusable.
    FilenameFormatError { format: String, details: String },
    /// A pattern failed to compile.
    RegexError(String),
    /// A URL could not be built from its template.
    UrlBuildError { template: String, details: String },
    /// The command-line arguments are inconsistent.
    ArgumentError(String),
    /// A request header value is invalid.
    HeaderError(String),
}

/// The human-readable text of an error.
pub open spec fn error_text(e: AppError) -> Seq<char> {
    match e {
        AppError::ConfigError { path, details } => "配置文件错误: "@ + path@ + ": "@ + details@,
        AppError::TomlError(m) => "TOML 解析错误: "@ + m@,
        AppError::InvalidDate { input, details } => "无效的日期格式 '"@ + input@ + "': "@ + details@,
        AppError::NetworkError { url, details } => "网络请求错误: "@ + url@ + " - "@ + details@,
        AppError::HttpError { url, status } => "HTTP 错误: "@ + url@ + " 返回状态码 "@ + decimal(
            status as nat,
        ),
        AppError::FileError { path, details } => "文件操作错误: "@ + path@ + " - "@ + details@,
        AppError::IoError(m) => "IO 错误: "@ + m@,
        AppError::ExifError { path, details } => "EXIF 修改错误: "@ + path@ + " - "@ + details@,
        AppError::FilenameFormatError { format, details } => "文件名格式错误: "@ + format@ + " - "@
            + details@,
        AppError::RegexError(m) => "正则表达式错误: "@ + m@,
        AppError::UrlBuildError { template, details } => "URL 构建错误: "@ + template@ + " - "@
            + details@,
        AppError::ArgumentError(m) => "参数错误: "@ + m@,
        AppError::HeaderError(m) => "HTTP 头部错误: "@ + m@,
    }
}

impl AppError {
    /// The human-readable text of the error.
    pub fn message(&self) -> (r: String)
        ensures
            r@ == error_text(*self),
    {
        match self {
            AppError::ConfigError { path, details } => String::from_str("配置文件错误: ").concat(
                path.as_str(),
            ).concat(": ").concat(details.as_str()),
            AppError::TomlError(m) => String::from_str("TOML 解析错误: ").concat(m.as_str()),
            AppError::InvalidDate { input, details } => String::from_str("无效的日期格式 '").concat(
                input.as_str(),
            ).concat("': ").concat(details.as_str()),
            AppError::NetworkError { url, details } => String::from_str("网络请求错误: ").concat(
                url.as_str(),
            ).concat(" - ").concat(details.as_str()),
            AppError::HttpError { url, status } => String::from_str("HTTP 错误: ").concat(
                url.as_str(),
            ).concat(" 返回状态码 ").concat(decimal_text(*status as u64).as_str()),
            AppError::FileError { path, details } => String::from_str("文件操作错误: ").concat(
                path.as_str(),
            ).concat(" - ").concat(details.as_str()),
            AppError::IoError(m) => String::from_str("IO 错误: ").concat(m.as_str()),
            AppError::ExifError { path, details } => String::from_str("EXIF 修改错误: ").concat(
                path.as_str(),
            ).concat(" - ").concat(details.as_str()),
            AppError::FilenameFormatError { format, details } => String::from_str(
                "文件名格式错误: ",
            ).concat(format.as_str()).concat(" - ").concat(details.as_str()),
            AppError::RegexError(m) => String::from_str("正则表达式错误: ").concat(m.as_str()),
            AppError::UrlBuildError { template, details } => String::from_str("URL 构建错误: ").concat(
                template.as_str(),
            ).concat(" - ").concat(details.as_str()),
            AppError::ArgumentError(m) => String::from_str("参数错误: ").concat(m.as_str()),
            AppError::HeaderError(m) => String::from_str("HTTP 头部错误: ").concat(m.as_str()),
        }
    }

    /// A configuration error for `path`.
    pub fn config_error(path: &str, details: &str) -> (r: Self)
        ensures
            r matches AppError::ConfigError { path: p, details: d } && p@ == path@ && d@ == details@,
    {
        AppError::ConfigError { path: path.to_string(), details: details.to_string() }
    }

    /// A network error for `url`.
    pub fn network_error(url: &str, details: &str) -> (r: Self)
        ensures
            r matches AppError::NetworkError { url: u, details: d } && u@ == url@ && d@ == details@,
    {
        AppError::NetworkError { url: url.to_string(), details: details.to_string() }
    }

    /// An HTTP status error for `url`.
    pub fn http_error(url: &str, status: u16) -> (r: Self)
        ensures
            r matches AppError::HttpError { url: u, status: s } && u@ == url@ && s == status,
    {
        AppError::HttpError { url: url.to_string(), status }
    }

    /// A file error for `path`.
    pub fn file_error(path: &str, details: &str) -> (r: Self)
        ensures
            r matches AppError::FileError { path: p, details: d } && p@ == path@ && d@ == details@,
    {
        AppError::FileError { path: path.to_string(), details: details.to_string() }
    }

    /// An embedded-metadata error for `path`.
    pub fn exif_error(path: &str, details: &str) -> (r: Self)
        ensures
            r matches AppError::ExifError { path: p, details: d } && p@ == path@ && d@ == details@,
    {
        AppError::ExifError { path: path.to_string(), details: details.to_string() }
    }

    /// A URL construction error for `template`.
    pub fn url_build_error(template: &str, details: &str) -> (r: Self)
        ensures
            r matches AppError::UrlBuildError { template: t, details: d } && t@ == template@
                && d@ == details@,
    {
        AppError::UrlBuildError { template: template.to_string(), details: details.to_string() }
    }

    /// An argument error.
    pub fn argument_error(msg: &str) -> (r: Self)
        ensures
            r matches AppError::ArgumentError(m) && m@ == msg@,
    {
        AppError::ArgumentError(msg.to_string())
    }
}

/// The text of a message that contains none of the known failure texts
/// classifies as `Unknown`.
pub proof fn lemma_unmatched_text_is_unknown(lowered: Seq<char>, message: Seq<char>)
    requires
        !has_infix(lowered, "timed out"@),
        !has_infix(lowered, "dns"@),
        !has_infix(lowered, "name or service not known"@),
        !has_infix(lowered, "no address associated with name"@),
        !has_infix(lowered, "connection refused"@),
        !has_infix(lowered, "network is unreachable"@),
        !has_infix(lowered, "connection reset"@),
        !has_infix(lowered, "broken pipe"@),
        !has_infix(lowered, "connection closed"@),
        !has_infix(lowered, "tls"@),
        !has_infix(lowered, "ssl"@),
        !has_infix(lowered, "certificate"@),
        !has_infix(lowered, "decode"@),
        !has_infix(lowered, "utf"@),
        !has_infix(lowered, "stream"@),
    ensures
        classify(lowered, message, None) == Category::Unknown(message),
        !category_retryable(classify(lowered, message, None)),
{
    reveal_strlit("connection timed out");
    reveal_strlit("timed out");
    reveal_strlit("invalid utf");
    reveal_strlit("utf");
    assert("connection timed out"@.subrange(11, 20) =~= "timed out"@);
    assert("invalid utf"@.subrange(8, 11) =~= "utf"@);
    if has_infix(lowered, "connection timed out"@) {
        lemma_infix_within(lowered, "connection timed out"@, "timed out"@, 11);
    }
    if has_infix(lowered, "invalid utf"@) {
        lemma_infix_within(lowered, "invalid utf"@, "utf"@, 8);
    }
}

} // verus!
