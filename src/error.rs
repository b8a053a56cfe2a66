//! Translation of native status codes into the binding's [`Error`] enumeration.
use vstd::prelude::*;

verus! {

/// Native status of a successful call (`HPDF_OK`).
pub const SUCCESS: u64 = 0;

/// Native status of a failed file operation (`HPDF_FILE_IO_ERROR`); its detail is the OS error
/// code.
pub const FILE_IO_ERROR: u64 = 0x1016;

/// Native status of a stream that ended before a read was filled (`HPDF_STREAM_EOF`).
pub const STREAM_EOF: u64 = 0x1058;

/// Represents all possible errors from libharu.
///
/// Many of these errors will never occur in practice because of the limitations or safety of this
/// binding, or because some errors are deprecated or otherwise unused by libharu.
#[derive(Clone, Copy, Debug, PartialEq, Eq)]
pub enum Error {
    /// Internal error. Data consistency was lost.
    ArrayCount,
    /// Internal error. Data consistency was lost.
    ArrayItemNotFound,
    /// Internal error. Data consistency was lost.
    ArrayItemUnexpectedType,
    /// Data length > 65535.
    BinaryLength,
    /// Dictionary elements > 4095
    DictionaryCount,
    /// Internal error. Data consistency was lost.
    DictionaryItemNotFound,
    /// Internal error. Data consistency was lost.
    DictionaryItemUnexpectedType,
    /// Internal error. Data consistency was lost.
    DictionaryStreamLengthNotFound,
    /// `Document::set_encryption_mode` or `Document::set_permission` called before password set.
    DocumentEncryptionDictionaryNotFound,
    /// Internal error. Data consistency was lost.
    DocumentInvalidObject,
    /// Tried to re-register a registered font.
    DuplicateRegistration,
    /// Cannot register a character to the Japanese word wrap characters list.
    JwwCodeNumberLimitExceeded(u64),
    /// * Tried to set the owner password to NULL.
    /// * Owner and user password are the same.
    EncryptInvalidPassword,
    /// Internal error. Data consistency was lost.
    UnknownClass,
    /// Stack depth > 28.
    GstateLimitExceeded,
    /// Memory allocation failed.
    AllocationFailed,
    /// File processing failed. Check the `Error`'s `detail` for more information.
    FileIo(u64),
    /// Cannot open a file. Check the `Error`'s `detail` for more information.
    FileOpen(u64),
    /// Tried to load a font that has been registered.
    FontExists,
    /// * Font-file format is invalid.
    /// * Internal error. Data consistency was lost.
    FontInvalidWidthsTable,
    /// Cannot recognize header of AFM file.
    InvalidAfmHeader,
    /// Specified annotation handle is invalid.
    InvalidAnnotation,
    /// Bit-per-component of a image which was set as mask-image is invalid.
    InvalidBitPerComponent,
    /// Cannot recognize char-matrics-data of AFM file.
    InvalidCharMatricsData,
    /// * Invalid color_space parameter of `Document::load_raw_image_from_file` or
    ///   `Document::load_raw_image_from_mem`.
    /// * Color-space of a image which was set as mask-image is invalid.
    /// * Invoked function invalid in present color-space.
    InvalidColorSpace,
    /// Invalid value set when invoking `Document::set_compression_mode`.
    InvalidCompressionMode,
    /// An invalid date-time value was set.
    InvalidDateTime,
    /// An invalid destination handle was set.
    InvalidDestination,
    /// An invalid document handle was set.
    InvalidDocument,
    /// Function invalid in the present state was invoked.
    InvalidDocumentState,
    /// An invalid encoder handle was set.
    InvalidEncoder,
    /// Combination between font and encoder is wrong.
    InvalidEncoderType,
    /// An Invalid encoding name is specified.
    InvalidEncodingName,
    /// Encryption key length is invalid.
    InvalidEncryptKeyLen,
    /// * An invalid font handle was set.
    /// * Unsupported font format.
    InvalidFontdefData,
    /// Internal error. Data consistency was lost.
    InvalidFontdefType,
    /// Font with the specified name is not found.
    InvalidFontName,
    /// Unsupported image format.
    InvalidImage,
    /// Unsupported image format.
    InvalidJpegData,
    /// Cannot read a postscript-name from an AFM file.
    InvalidNData,
    /// * An invalid object is set.
    /// * Internal error. Data consistency was lost.
    InvalidObject,
    /// Internal error. Data consistency was lost.
    InvalidObjectId,
    /// Invoked `Image::set_color_mask` against the image-object which was set a mask-image.
    InvalidOperation,
    /// An invalid outline-handle was specified.
    InvalidOutline,
    /// An invalid page-handle was specified.
    InvalidPage,
    /// An invalid pages-handle was specified (internal error).
    InvalidPages,
    /// An invalid value is set.
    InvalidParameter,
    /// Invalid PNG image format.
    InvalidPngImage,
    /// Internal error. Data consistency was lost.
    InvalidStream,
    /// Internal error. "_FILE_NAME" entry for delayed loading is missing.
    MissingFileNameEntry,
    /// Invalid TTC file format.
    InvalidTtcFile,
    /// Index parameter > number of included fonts.
    InvalidTtcIndex,
    /// Cannot read a width-data from an AFM file.
    InvalidWxData,
    /// Internal error. Data consistency was lost.
    ItemNotFound,
    /// Error returned from libpng while loading image.
    Libpng(u64),
    /// Cannot get palette data from PNG image.
    CannotGetPalette,
    /// Internal error. Data consistency was lost.
    NameInvalidValue,
    /// Internal error. Data consistency was lost.
    NameOutOfRange,
    /// An invalid number of parameters was passed to a page operation.
    PageInvalidParameterCount,
    /// Internal error. Data consistency was lost.
    PagesMissingKidsEntry,
    /// Internal error. Data consistency was lost.
    PageCannotFindObject,
    /// Internal error. Data consistency was lost.
    PageCannotGetRootPages,
    /// There are no graphics-states to be restored.
    PageCannotRestoreGstate,
    /// Internal error. Data consistency was lost.
    PageCannotSetParent,
    /// The current font is not set.
    PageFontNotFound,
    /// An invalid font-handle was specified.
    PageInvalidFont,
    /// An invalid font-size was set.
    PageInvalidFontSize,
    /// An operation was unable to be executed in the current graphics mode. This will occur, for
    /// example, if `Page::set_gray_stroke` is called in between `Page::line_to` calls.
    ///
    /// Consult [libharu's manual](https://github.com/libharu/libharu/wiki/Graphics#graphics-mode)
    /// for full documentation of the graphics mode.
    PageInvalidGmode,
    /// Internal error. Data consistency was lost.
    PageInvalidIndex,
    /// Specified value is not multiple of 90.
    PageInvalidRotateValue,
    /// An invalid page-size was set.
    PageInvalidSize,
    /// An invalid image-handle was set.
    PageInvalidXobject,
    /// The specified value is out of range.
    PageOutOfRange,
    /// The specified value is out of range.
    RealOutOfRange,
    /// Unexpected EOF marker was detected.
    StreamEof,
    /// Internal error. Data consistency was lost.
    StreamReadlnContinue,
    /// The length of the text is too long.
    StringOutOfRange,
    /// Function not executed because of other errors.
    FunctionSkipped,
    /// Font cannot be embedded (license restriction).
    TtfCannotEmbeddingFont,
    /// Unsupported TTF format (cannot find unicode cmap).
    TtfInvalidCmap,
    /// Unsupported TTF format.
    TtfInvalidFomat,
    /// Unsupported TTF format (cannot find a necessary table).
    TtfMissingTable(u64),
    /// Internal error. Data consistency was lost.
    UnsupportedFontType,
    /// * Library not configured to use PNGLIB.
    /// * Internal error. Data consistency was lost.
    FunctionUnsupported,
    /// Unsupported JPEG format.
    UnsupportedJpegFormat,
    /// Failed to parse PFB file.
    UnsupportedType1Font,
    /// Internal error. Data consistency was lost.
    XrefCountErr,
    /// Error while executing zlib function.
    Zlib(u64),
    /// An invalid page index was passed.
    InvalidPageIndex,
    /// An invalid URI was set.
    InvalidUri,
    /// An invalid page-layout was set.
    PageLayoutOutOfRange,
    /// An invalid page-mode was set.
    PageModeOutOfRange,
    /// An invalid page-num-style was set.
    PageNumberStyleOutOfRange(u64),
    /// An invalid icon was set.
    AnnotationInvalidIcon,
    /// An invalid border-style was set.
    AnnotationInvalidBorderStyle,
    /// An invalid page-direction was set.
    PageInvalidDirection(u64),
    /// An invalid font-handle was specified.
    InvalidFont,
    /// Page has insufficient space for the operation to succeed.
    PageInsufficientSpace,
    /// Page slideshow display time was invalid.
    PageInvalidDisplayTime,
    /// Page slideshow transition time was invalid.
    PageInvalidTransitionTime,
    /// Page slideshow type was invalid.
    PageInvalidSlideshowType,
    /// An argument passed to a graphics-state operation was out of valid range.
    ExtGstateOutOfRange,
    /// The state of the graphics-state during an operation was invalid.
    ExtGstateInvalid,
    /// The state of the graphics-state during an operation was read-only.
    ExtGstateReadOnly,
    /// Universal 3D data was not well-formatted.
    U3dDataInvalid,
    /// Failed to get item names.
    CannotGetNames,
    /// Unsupported ICC format.
    IccComponentCountInvalid,
    /// The provided string contained a 0 (NUL) byte, so it could not be converted into a C string
    /// consumable by libharu.
    StringWithInternalNul,
}

/// The error that a failed native status stands for, with its detail where the status carries
/// one; `None` for success and for codes that the native library does not define.
pub open spec fn error_for(status: u64, detail: u64) -> Option<Error> {
    match status {
        0x1001 => Some(Error::ArrayCount),
        0x1002 => Some(Error::ArrayItemNotFound),
        0x1003 => Some(Error::ArrayItemUnexpectedType),
        0x1004 => Some(Error::BinaryLength),
        0x1007 => Some(Error::DictionaryCount),
        0x1008 => Some(Error::DictionaryItemNotFound),
        0x1009 => Some(Error::DictionaryItemUnexpectedType),
        0x100a => Some(Error::DictionaryStreamLengthNotFound),
        0x100b => Some(Error::DocumentEncryptionDictionaryNotFound),
        0x100c => Some(Error::DocumentInvalidObject),
        0x100e => Some(Error::DuplicateRegistration),
        0x100f => Some(Error::JwwCodeNumberLimitExceeded(detail)),
        0x1011 => Some(Error::EncryptInvalidPassword),
        0x1013 => Some(Error::UnknownClass),
        0x1014 => Some(Error::GstateLimitExceeded),
        0x1015 => Some(Error::AllocationFailed),
        0x1016 => Some(Error::FileIo(detail)),
        0x1017 => Some(Error::FileOpen(detail)),
        0x1019 => Some(Error::FontExists),
        0x101a => Some(Error::FontInvalidWidthsTable),
        0x101b => Some(Error::InvalidAfmHeader),
        0x101c => Some(Error::InvalidAnnotation),
        0x101e => Some(Error::InvalidBitPerComponent),
        0x101f => Some(Error::InvalidCharMatricsData),
        0x1020 => Some(Error::InvalidColorSpace),
        0x1021 => Some(Error::InvalidCompressionMode),
        0x1022 => Some(Error::InvalidDateTime),
        0x1023 => Some(Error::InvalidDestination),
        0x1025 => Some(Error::InvalidDocument),
        0x1026 => Some(Error::InvalidDocumentState),
        0x1027 => Some(Error::InvalidEncoder),
        0x1028 => Some(Error::InvalidEncoderType),
        0x102b => Some(Error::InvalidEncodingName),
        0x102c => Some(Error::InvalidEncryptKeyLen),
        0x102d => Some(Error::InvalidFontdefData),
        0x102e => Some(Error::InvalidFontdefType),
        0x102f => Some(Error::InvalidFontName),
        0x1030 => Some(Error::InvalidImage),
        0x1031 => Some(Error::InvalidJpegData),
        0x1032 => Some(Error::InvalidNData),
        0x1033 => Some(Error::InvalidObject),
        0x1034 => Some(Error::InvalidObjectId),
        0x1035 => Some(Error::InvalidOperation),
        0x1036 => Some(Error::InvalidOutline),
        0x1037 => Some(Error::InvalidPage),
        0x1038 => Some(Error::InvalidPages),
        0x1039 => Some(Error::InvalidParameter),
        0x103b => Some(Error::InvalidPngImage),
        0x103c => Some(Error::InvalidStream),
        0x103d => Some(Error::MissingFileNameEntry),
        0x103f => Some(Error::InvalidTtcFile),
        0x1040 => Some(Error::InvalidTtcIndex),
        0x1041 => Some(Error::InvalidWxData),
        0x1042 => Some(Error::ItemNotFound),
        0x1043 => Some(
            if detail == 0x1005 {
                Error::CannotGetPalette
            } else {
                Error::Libpng(detail)
            },
        ),
        0x1044 => Some(Error::NameInvalidValue),
        0x1045 => Some(Error::NameOutOfRange),
        0x1048 => Some(Error::PageInvalidParameterCount),
        0x1049 => Some(Error::PagesMissingKidsEntry),
        0x104a => Some(Error::PageCannotFindObject),
        0x104b => Some(Error::PageCannotGetRootPages),
        0x104c => Some(Error::PageCannotRestoreGstate),
        0x104d => Some(Error::PageCannotSetParent),
        0x104e => Some(Error::PageFontNotFound),
        0x104f => Some(Error::PageInvalidFont),
        0x1050 => Some(Error::PageInvalidFontSize),
        0x1051 => Some(Error::PageInvalidGmode),
        0x1052 => Some(Error::PageInvalidIndex),
        0x1053 => Some(Error::PageInvalidRotateValue),
        0x1054 => Some(Error::PageInvalidSize),
        0x1055 => Some(Error::PageInvalidXobject),
        0x1056 => Some(Error::PageOutOfRange),
        0x1057 => Some(Error::RealOutOfRange),
        0x1058 => Some(Error::StreamEof),
        0x1059 => Some(Error::StreamReadlnContinue),
        0x105b => Some(Error::StringOutOfRange),
        0x105c => Some(Error::FunctionSkipped),
        0x105d => Some(Error::TtfCannotEmbeddingFont),
        0x105e => Some(Error::TtfInvalidCmap),
        0x105f => Some(Error::TtfInvalidFomat),
        0x1060 => Some(Error::TtfMissingTable(detail)),
        0x1061 => Some(Error::UnsupportedFontType),
        0x1062 => Some(Error::FunctionUnsupported),
        0x1063 => Some(Error::UnsupportedJpegFormat),
        0x1064 => Some(Error::UnsupportedType1Font),
        0x1065 => Some(Error::XrefCountErr),
        0x1066 => Some(Error::Zlib(detail)),
        0x1067 => Some(Error::InvalidPageIndex),
        0x1068 => Some(Error::InvalidUri),
        0x1069 => Some(Error::PageLayoutOutOfRange),
        0x1070 => Some(Error::PageModeOutOfRange),
        0x1071 => Some(Error::PageNumberStyleOutOfRange(detail)),
        0x1072 => Some(Error::AnnotationInvalidIcon),
        0x1073 => Some(Error::AnnotationInvalidBorderStyle),
        0x1074 => Some(Error::PageInvalidDirection(detail)),
        0x1075 => Some(Error::InvalidFont),
        0x1076 => Some(Error::PageInsufficientSpace),
        0x1077 => Some(Error::PageInvalidDisplayTime),
        0x1078 => Some(Error::PageInvalidTransitionTime),
        0x1079 => Some(Error::PageInvalidSlideshowType),
        0x1080 => Some(Error::ExtGstateOutOfRange),
        0x1081 => Some(Error::ExtGstateInvalid),
        0x1082 => Some(Error::ExtGstateReadOnly),
        0x1083 => Some(Error::U3dDataInvalid),
        0x1084 => Some(Error::CannotGetNames),
        0x1085 => Some(Error::IccComponentCountInvalid),
        _ => None,
    }
}

/// The native statuses whose error takes the detail code as its payload.
pub open spec fn carries_detail(status: u64) -> bool {
    ||| status == 0x100f
    ||| status == 0x1016
    ||| status == 0x1017
    ||| status == 0x1043
    ||| status == 0x1060
    ||| status == 0x1066
    ||| status == 0x1071
    ||| status == 0x1074
}

/// A status that the binding knows: success, or one of the native error codes.
pub open spec fn is_known_status(status: u64) -> bool {
    status == SUCCESS || error_for(status, 0) is Some
}

/// What a known status means to a caller: success, or the error it stands for.
pub open spec fn translate(status: u64, detail: u64) -> Result<(), Error> {
    match error_for(status, detail) {
        Some(e) => Err(e),
        None => Ok(()),
    }
}

/// The native status that produces an error; `SUCCESS` for `StringWithInternalNul`, which the
/// binding raises itself.
pub open spec fn native_status(e: Error) -> u64 {
    match e {
        Error::ArrayCount => 0x1001,
        Error::ArrayItemNotFound => 0x1002,
        Error::ArrayItemUnexpectedType => 0x1003,
        Error::BinaryLength => 0x1004,
        Error::DictionaryCount => 0x1007,
        Error::DictionaryItemNotFound => 0x1008,
        Error::DictionaryItemUnexpectedType => 0x1009,
        Error::DictionaryStreamLengthNotFound => 0x100a,
        Error::DocumentEncryptionDictionaryNotFound => 0x100b,
        Error::DocumentInvalidObject => 0x100c,
        Error::DuplicateRegistration => 0x100e,
        Error::JwwCodeNumberLimitExceeded(_) => 0x100f,
        Error::EncryptInvalidPassword => 0x1011,
        Error::UnknownClass => 0x1013,
        Error::GstateLimitExceeded => 0x1014,
        Error::AllocationFailed => 0x1015,
        Error::FileIo(_) => 0x1016,
        Error::FileOpen(_) => 0x1017,
        Error::FontExists => 0x1019,
        Error::FontInvalidWidthsTable => 0x101a,
        Error::InvalidAfmHeader => 0x101b,
        Error::InvalidAnnotation => 0x101c,
        Error::InvalidBitPerComponent => 0x101e,
        Error::InvalidCharMatricsData => 0x101f,
        Error::InvalidColorSpace => 0x1020,
        Error::InvalidCompressionMode => 0x1021,
        Error::InvalidDateTime => 0x1022,
        Error::InvalidDestination => 0x1023,
        Error::InvalidDocument => 0x1025,
        Error::InvalidDocumentState => 0x1026,
        Error::InvalidEncoder => 0x1027,
        Error::InvalidEncoderType => 0x1028,
        Error::InvalidEncodingName => 0x102b,
        Error::InvalidEncryptKeyLen => 0x102c,
        Error::InvalidFontdefData => 0x102d,
        Error::InvalidFontdefType => 0x102e,
        Error::InvalidFontName => 0x102f,
        Error::InvalidImage => 0x1030,
        Error::InvalidJpegData => 0x1031,
        Error::InvalidNData => 0x1032,
        Error::InvalidObject => 0x1033,
        Error::InvalidObjectId => 0x1034,
        Error::InvalidOperation => 0x1035,
        Error::InvalidOutline => 0x1036,
        Error::InvalidPage => 0x1037,
        Error::InvalidPages => 0x1038,
        Error::InvalidParameter => 0x1039,
        Error::InvalidPngImage => 0x103b,
        Error::InvalidStream => 0x103c,
        Error::MissingFileNameEntry => 0x103d,
        Error::InvalidTtcFile => 0x103f,
        Error::InvalidTtcIndex => 0x1040,
        Error::InvalidWxData => 0x1041,
        Error::ItemNotFound => 0x1042,
        Error::Libpng(_) => 0x1043,
        Error::CannotGetPalette => 0x1043,
        Error::NameInvalidValue => 0x1044,
        Error::NameOutOfRange => 0x1045,
        Error::PageInvalidParameterCount => 0x1048,
        Error::PagesMissingKidsEntry => 0x1049,
        Error::PageCannotFindObject => 0x104a,
        Error::PageCannotGetRootPages => 0x104b,
        Error::PageCannotRestoreGstate => 0x104c,
        Error::PageCannotSetParent => 0x104d,
        Error::PageFontNotFound => 0x104e,
        Error::PageInvalidFont => 0x104f,
        Error::PageInvalidFontSize => 0x1050,
        Error::PageInvalidGmode => 0x1051,
        Error::PageInvalidIndex => 0x1052,
        Error::PageInvalidRotateValue => 0x1053,
        Error::PageInvalidSize => 0x1054,
        Error::PageInvalidXobject => 0x1055,
        Error::PageOutOfRange => 0x1056,
        Error::RealOutOfRange => 0x1057,
        Error::StreamEof => 0x1058,
        Error::StreamReadlnContinue => 0x1059,
        Error::StringOutOfRange => 0x105b,
        Error::FunctionSkipped => 0x105c,
        Error::TtfCannotEmbeddingFont => 0x105d,
        Error::TtfInvalidCmap => 0x105e,
        Error::TtfInvalidFomat => 0x105f,
        Error::TtfMissingTable(_) => 0x1060,
        Error::UnsupportedFontType => 0x1061,
        Error::FunctionUnsupported => 0x1062,
        Error::UnsupportedJpegFormat => 0x1063,
        Error::UnsupportedType1Font => 0x1064,
        Error::XrefCountErr => 0x1065,
        Error::Zlib(_) => 0x1066,
        Error::InvalidPageIndex => 0x1067,
        Error::InvalidUri => 0x1068,
        Error::PageLayoutOutOfRange => 0x1069,
        Error::PageModeOutOfRange => 0x1070,
        Error::PageNumberStyleOutOfRange(_) => 0x1071,
        Error::AnnotationInvalidIcon => 0x1072,
        Error::AnnotationInvalidBorderStyle => 0x1073,
        Error::PageInvalidDirection(_) => 0x1074,
        Error::InvalidFont => 0x1075,
        Error::PageInsufficientSpace => 0x1076,
        Error::PageInvalidDisplayTime => 0x1077,
        Error::PageInvalidTransitionTime => 0x1078,
        Error::PageInvalidSlideshowType => 0x1079,
        Error::ExtGstateOutOfRange => 0x1080,
        Error::ExtGstateInvalid => 0x1081,
        Error::ExtGstateReadOnly => 0x1082,
        Error::U3dDataInvalid => 0x1083,
        Error::CannotGetNames => 0x1084,
        Error::IccComponentCountInvalid => 0x1085,
        Error::StringWithInternalNul => SUCCESS,
    }
}

/// Looks up the error of a failed native status.
fn lookup(status: u64, detail: u64) -> (r: Option<Error>)
    ensures
        r == error_for(status, detail),
{
    match status {
        0x1001 => Some(Error::ArrayCount),
        0x1002 => Some(Error::ArrayItemNotFound),
        0x1003 => Some(Error::ArrayItemUnexpectedType),
        0x1004 => Some(Error::BinaryLength),
        0x1007 => Some(Error::DictionaryCount),
        0x1008 => Some(Error::DictionaryItemNotFound),
        0x1009 => Some(Error::DictionaryItemUnexpectedType),
        0x100a => Some(Error::DictionaryStreamLengthNotFound),
        0x100b => Some(Error::DocumentEncryptionDictionaryNotFound),
        0x100c => Some(Error::DocumentInvalidObject),
        0x100e => Some(Error::DuplicateRegistration),
        0x100f => Some(Error::JwwCodeNumberLimitExceeded(detail)),
        0x1011 => Some(Error::EncryptInvalidPassword),
        0x1013 => Some(Error::UnknownClass),
        0x1014 => Some(Error::GstateLimitExceeded),
        0x1015 => Some(Error::AllocationFailed),
        0x1016 => Some(Error::FileIo(detail)),
        0x1017 => Some(Error::FileOpen(detail)),
        0x1019 => Some(Error::FontExists),
        0x101a => Some(Error::FontInvalidWidthsTable),
        0x101b => Some(Error::InvalidAfmHeader),
        0x101c => Some(Error::InvalidAnnotation),
        0x101e => Some(Error::InvalidBitPerComponent),
        0x101f => Some(Error::InvalidCharMatricsData),
        0x1020 => Some(Error::InvalidColorSpace),
        0x1021 => Some(Error::InvalidCompressionMode),
        0x1022 => Some(Error::InvalidDateTime),
        0x1023 => Some(Error::InvalidDestination),
        0x1025 => Some(Error::InvalidDocument),
        0x1026 => Some(Error::InvalidDocumentState),
        0x1027 => Some(Error::InvalidEncoder),
        0x1028 => Some(Error::InvalidEncoderType),
        0x102b => Some(Error::InvalidEncodingName),
        0x102c => Some(Error::InvalidEncryptKeyLen),
        0x102d => Some(Error::InvalidFontdefData),
        0x102e => Some(Error::InvalidFontdefType),
        0x102f => Some(Error::InvalidFontName),
        0x1030 => Some(Error::InvalidImage),
        0x1031 => Some(Error::InvalidJpegData),
        0x1032 => Some(Error::InvalidNData),
        0x1033 => Some(Error::InvalidObject),
        0x1034 => Some(Error::InvalidObjectId),
        0x1035 => Some(Error::InvalidOperation),
        0x1036 => Some(Error::InvalidOutline),
        0x1037 => Some(Error::InvalidPage),
        0x1038 => Some(Error::InvalidPages),
        0x1039 => Some(Error::InvalidParameter),
        0x103b => Some(Error::InvalidPngImage),
        0x103c => Some(Error::InvalidStream),
        0x103d => Some(Error::MissingFileNameEntry),
        0x103f => Some(Error::InvalidTtcFile),
        0x1040 => Some(Error::InvalidTtcIndex),
        0x1041 => Some(Error::InvalidWxData),
        0x1042 => Some(Error::ItemNotFound),
        0x1043 => Some(
            if detail == 0x1005 {
                Error::CannotGetPalette
            } else {
                Error::Libpng(detail)
            },
        ),
        0x1044 => Some(Error::NameInvalidValue),
        0x1045 => Some(Error::NameOutOfRange),
        0x1048 => Some(Error::PageInvalidParameterCount),
        0x1049 => Some(Error::PagesMissingKidsEntry),
        0x104a => Some(Error::PageCannotFindObject),
        0x104b => Some(Error::PageCannotGetRootPages),
        0x104c => Some(Error::PageCannotRestoreGstate),
        0x104d => Some(Error::PageCannotSetParent),
        0x104e => Some(Error::PageFontNotFound),
        0x104f => Some(Error::PageInvalidFont),
        0x1050 => Some(Error::PageInvalidFontSize),
        0x1051 => Some(Error::PageInvalidGmode),
        0x1052 => Some(Error::PageInvalidIndex),
        0x1053 => Some(Error::PageInvalidRotateValue),
        0x1054 => Some(Error::PageInvalidSize),
        0x1055 => Some(Error::PageInvalidXobject),
        0x1056 => Some(Error::PageOutOfRange),
        0x1057 => Some(Error::RealOutOfRange),
        0x1058 => Some(Error::StreamEof),
        0x1059 => Some(Error::StreamReadlnContinue),
        0x105b => Some(Error::StringOutOfRange),
        0x105c => Some(Error::FunctionSkipped),
        0x105d => Some(Error::TtfCannotEmbeddingFont),
        0x105e => Some(Error::TtfInvalidCmap),
        0x105f => Some(Error::TtfInvalidFomat),
        0x1060 => Some(Error::TtfMissingTable(detail)),
        0x1061 => Some(Error::UnsupportedFontType),
        0x1062 => Some(Error::FunctionUnsupported),
        0x1063 => Some(Error::UnsupportedJpegFormat),
        0x1064 => Some(Error::UnsupportedType1Font),
        0x1065 => Some(Error::XrefCountErr),
        0x1066 => Some(Error::Zlib(detail)),
        0x1067 => Some(Error::InvalidPageIndex),
        0x1068 => Some(Error::InvalidUri),
        0x1069 => Some(Error::PageLayoutOutOfRange),
        0x1070 => Some(Error::PageModeOutOfRange),
        0x1071 => Some(Error::PageNumberStyleOutOfRange(detail)),
        0x1072 => Some(Error::AnnotationInvalidIcon),
        0x1073 => Some(Error::AnnotationInvalidBorderStyle),
        0x1074 => Some(Error::PageInvalidDirection(detail)),
        0x1075 => Some(Error::InvalidFont),
        0x1076 => Some(Error::PageInsufficientSpace),
        0x1077 => Some(Error::PageInvalidDisplayTime),
        0x1078 => Some(Error::PageInvalidTransitionTime),
        0x1079 => Some(Error::PageInvalidSlideshowType),
        0x1080 => Some(Error::ExtGstateOutOfRange),
        0x1081 => Some(Error::ExtGstateInvalid),
        0x1082 => Some(Error::ExtGstateReadOnly),
        0x1083 => Some(Error::U3dDataInvalid),
        0x1084 => Some(Error::CannotGetNames),
        0x1085 => Some(Error::IccComponentCountInvalid),
        _ => None,
    }
}

/// Returns whether `status` is success or a native error code that the binding knows.
pub fn status_is_known(status: u64) -> (r: bool)
    ensures
        r == is_known_status(status),
{
    status == SUCCESS || lookup(status, 0).is_some()
}

/// Accepts two native libharu statuses (a main one and an optional detail) and returns a possible
/// `Error`. If `status` is a successful code, `detail` is ignored and `Ok` is returned.
///
/// `detail` is only utilized for a few errors. A status that the native library does not define
/// is a version mismatch, not an error a caller could handle: callers test it with
/// `status_is_known` first.
pub fn from(status: u64, detail: u64) -> (r: Result<(), Error>)
    requires
        is_known_status(status),
    ensures
        r == translate(status, detail),
        status == SUCCESS <==> r is Ok,
        status != SUCCESS ==> r == Err::<(), Error>(error_for(status, detail)->0),
{
    if status == SUCCESS {
        return Ok(());
    }
    match lookup(status, detail) {
        Some(e) => Err(e),
        None => {
            proof {
                lemma_detail_keeps_status_known(status, 0, detail);
            }
            Ok(())
        },
    }
}

/// Whether a status has an error does not depend on its detail.
proof fn lemma_detail_keeps_status_known(status: u64, d1: u64, d2: u64)
    ensures
        error_for(status, d1) is Some <==> error_for(status, d2) is Some,
{
}

/// A successful status translates to success, whatever its detail.
pub proof fn lemma_success_ignores_detail(detail: u64)
    ensures
        is_known_status(SUCCESS),
        translate(SUCCESS, detail) == Ok::<(), Error>(()),
{
}

/// The detail code only matters for the statuses that carry it.
pub proof fn lemma_detail_ignored_without_payload(status: u64, d1: u64, d2: u64)
    requires
        !carries_detail(status),
    ensures
        error_for(status, d1) == error_for(status, d2),
{
}

/// Each error comes from exactly one native status: translating a status and asking which status
/// produces the resulting error gives the status back.
pub proof fn lemma_one_status_per_error(status: u64, detail: u64)
    ensures
        error_for(status, detail) matches Some(e) ==> native_status(e) == status && status
            != SUCCESS,
{
}

} // verus!
