//! Document export: the settings of PDF, ePub, HTML and Word exports, the
//! ePub book structure, and the rules that turn a document into it. Writing
//! the files and the archive is done by the caller.

use vstd::prelude::*;
use crate::timeutil::DateTimeUtc;
use crate::strmap::StrMap;

pub mod epub;

verus! {

/// Colour scheme of an exported document.
#[derive(Debug, Clone)]
pub struct ColorScheme {
    pub primary_color: String,
    pub secondary_color: String,
    pub text_color: String,
    pub background_color: String,
    pub link_color: String,
    pub heading_color: String,
    pub accent_color: String,
}

/// Text justification options.
#[derive(Debug, Clone, Copy, PartialEq, Eq, Structural)]
pub enum TextJustification {
    Left,
    Center,
    Right,
    Justify,
}

/// Page number position options.
#[derive(Debug, Clone, Copy, PartialEq, Eq, Structural)]
pub enum PageNumberPosition {
    BottomLeft,
    BottomCenter,
    BottomRight,
    TopLeft,
    TopCenter,
    TopRight,
    Hidden,
}

/// Header and footer configuration.
#[derive(Debug, Clone)]
pub struct HeaderFooterConfig {
    pub header_template: Option<String>,
    pub footer_template: Option<String>,
    pub odd_even_headers: bool,
    pub first_page_different: bool,
    pub page_number_position: PageNumberPosition,
}

/// Numbering styles for ordered lists.
#[derive(Debug, Clone, Copy, PartialEq, Eq, Structural)]
pub enum NumberStyle {
    Decimal,
    UpperRoman,
    LowerRoman,
    UpperAlpha,
    LowerAlpha,
}

/// Border line styles.
#[derive(Debug, Clone, Copy, PartialEq, Eq, Structural)]
pub enum BorderLineStyle {
    Solid,
    Dashed,
    Dotted,
    Double,
}

/// Section break styles.
#[derive(Debug, Clone, Copy, PartialEq, Eq, Structural)]
pub enum SectionBreakStyle {
    Page,
    Column,
    Continuous,
    EvenPage,
    OddPage,
}

/// Link style.
#[derive(Debug, Clone)]
pub struct LinkStyle {
    pub color: String,
    pub underline: bool,
    pub hover_color: Option<String>,
}

/// Bullet styles (an image bullet by its path).
#[derive(Debug, Clone)]
pub enum BulletStyle {
    Dot,
    Circle,
    Square,
    Custom(char),
    Image(String),
}

/// Text alignment.
#[derive(Debug, Clone, Copy, PartialEq, Eq, Structural)]
pub enum TextAlignment {
    Left,
    Center,
    Right,
    Justify,
}

/// Table of contents entry.
#[derive(Debug, Clone)]
pub struct TocEntry {
    pub text: String,
    pub page_number: u32,
    pub indent_level: u8,
    pub target_id: String,
}

/// Page number formats.
#[derive(Debug, Clone, Copy, PartialEq, Eq, Structural)]
pub enum PageNumberFormat {
    Arabic,
    RomanUpper,
    RomanLower,
    AlphaUpper,
    AlphaLower,
    Unnumbered,
}

/// Table of contents configuration.
#[derive(Debug, Clone)]
pub struct TableOfContents {
    pub title: String,
    pub show_page_numbers: bool,
    pub indent_levels: u8,
    pub heading_styles: Vec<String>,
    pub custom_entries: Vec<TocEntry>,
    pub page_number_format: PageNumberFormat,
}

/// Cover page layouts.
#[derive(Debug, Clone)]
pub enum CoverLayout {
    Classic,
    Modern,
    Minimalist,
    Corporate,
    Academic,
    Custom { custom_template: String },
}

/// Template categories.
#[derive(Debug, Clone, Copy, PartialEq, Eq, Structural)]
pub enum TemplateCategory {
    Academic,
    Business,
    Creative,
    Technical,
    Legal,
    Medical,
    Educational,
    Report,
    Manual,
    Presentation,
}

/// Template metadata (the preview image by its path).
#[derive(Debug, Clone)]
pub struct TemplateMetadata {
    pub category: TemplateCategory,
    pub tags: Vec<String>,
    pub author: Option<String>,
    pub license: Option<String>,
    pub preview_image: Option<String>,
}

/// Export job status.
#[derive(Debug, Clone, Copy, PartialEq, Eq, Structural)]
pub enum ExportStatus {
    Pending,
    Processing,
    Completed,
    Failed,
    Cancelled,
}

/// Image quality levels.
#[derive(Debug, Clone, Copy, PartialEq, Eq, Structural)]
pub enum ImageQuality {
    Draft,
    Standard,
    High,
    Maximum,
    Custom { dpi: u32, compression_level: u8 },
}

/// Text rendering quality.
#[derive(Debug, Clone, Copy, PartialEq, Eq, Structural)]
pub enum TextRenderingQuality {
    Fast,
    Balanced,
    HighQuality,
    PrintOptimized,
}

/// Colour profiles.
#[derive(Debug, Clone)]
pub enum ColorProfile {
    RGB,
    CMYK,
    Grayscale,
    Custom(String),
}

/// Quality settings.
#[derive(Debug, Clone)]
pub struct QualitySettings {
    pub image_quality: ImageQuality,
    pub text_rendering: TextRenderingQuality,
    pub anti_aliasing: bool,
    pub color_profile: ColorProfile,
}

/// Compression settings (level from one to nine).
#[derive(Debug, Clone, Copy)]
pub struct CompressionSettings {
    pub enable_compression: bool,
    pub compression_level: u8,
    pub compress_images: bool,
    pub compress_fonts: bool,
    pub remove_unused_resources: bool,
}

/// Which metadata an export includes.
#[derive(Debug, Clone)]
pub struct MetadataInclusion {
    pub include_document_info: bool,
    pub include_creator_info: bool,
    pub include_keywords: bool,
    pub include_xmp_metadata: bool,
    pub custom_properties: StrMap<String>,
}

/// Encryption algorithms.
#[derive(Debug, Clone, Copy, PartialEq, Eq, Structural)]
pub enum EncryptionAlgorithm {
    RC4_128,
    AES_128,
    AES_256,
}

/// What readers of an exported document may do.
#[derive(Debug, Clone, Copy)]
pub struct DocumentPermissions {
    pub allow_printing: bool,
    pub allow_copying: bool,
    pub allow_modifying: bool,
    pub allow_annotations: bool,
    pub allow_form_filling: bool,
    pub allow_extraction: bool,
}

/// Security settings.
#[derive(Debug, Clone)]
pub struct SecuritySettings {
    pub encryption_enabled: bool,
    pub encryption_algorithm: EncryptionAlgorithm,
    pub password_protected: bool,
    pub user_password: Option<String>,
    pub owner_password: Option<String>,
    pub permissions: DocumentPermissions,
}

/// Export configuration.
#[derive(Debug, Clone)]
pub struct ExportConfiguration {
    pub quality_settings: QualitySettings,
    pub compression_settings: CompressionSettings,
    pub metadata_inclusion: MetadataInclusion,
    pub security_settings: SecuritySettings,
}

/// HTML templates.
#[derive(Debug, Clone)]
pub enum HtmlTemplate {
    Article,
    Book,
    Documentation,
    Presentation,
    Custom(String),
}

/// CSS frameworks.
#[derive(Debug, Clone)]
pub enum CssFramework {
    Bootstrap,
    Tailwind,
    Bulma,
    Foundation,
    Custom(String),
}

/// HTML export configuration.
#[derive(Debug, Clone)]
pub struct HtmlExportConfig {
    pub template: HtmlTemplate,
    pub css_framework: Option<CssFramework>,
    pub include_toc: bool,
    pub include_navigation: bool,
    pub responsive_design: bool,
}

/// Word export configuration (the template by its path).
#[derive(Debug, Clone)]
pub struct DocxExportConfig {
    pub template: Option<String>,
    pub style_set: Option<String>,
    pub compatibility_mode: bool,
    pub track_changes: bool,
}

/// Font styles.
#[derive(Debug, Clone, Copy, PartialEq, Eq, Structural)]
pub enum FontStyle {
    Normal,
    Italic,
    Oblique,
}

/// Font licences.
#[derive(Debug, Clone)]
pub enum FontLicense {
    OpenSource,
    Commercial,
    Custom(String),
}

/// A font used by the PDF export (the file by its path).
#[derive(Debug, Clone)]
pub struct FontData {
    pub font_name: String,
    pub file_path: String,
    pub weight: u32,
    pub style: FontStyle,
    pub license: FontLicense,
}

/// Image formats.
#[derive(Debug, Clone)]
pub enum ImageFormat {
    JPEG,
    PNG,
    TIFF,
    SVG,
    PDF,
    Custom(String),
}

/// Image colour spaces.
#[derive(Debug, Clone, Copy, PartialEq, Eq, Structural)]
pub enum ImageColorSpace {
    RGB,
    CMYK,
    Grayscale,
    Lab,
}

/// Image compression kinds.
#[derive(Debug, Clone)]
pub enum ImageCompression {
    Lossless,
    JPEG,
    PNG,
    TIFF,
    Custom(String),
}

/// PDF bullet styles.
#[derive(Debug, Clone)]
pub enum PdfBulletStyle {
    Dot,
    Circle,
    Square,
    Custom(String),
}

/// PDF list item.
#[derive(Debug)]
pub struct PdfListItem {
    pub text: String,
    pub sub_items: Vec<PdfListItem>,
    pub bullet_style: PdfBulletStyle,
    pub indent_level: u8,
}

impl Default for DocumentPermissions {
    /// Printing, annotations and form filling allowed; copying, changes and
    /// extraction not.
    fn default() -> (p: Self)
        ensures
            p.allow_printing,
            !p.allow_copying,
            !p.allow_modifying,
            p.allow_annotations,
            p.allow_form_filling,
            !p.allow_extraction,
    {
        DocumentPermissions {
            allow_printing: true,
            allow_copying: false,
            allow_modifying: false,
            allow_annotations: true,
            allow_form_filling: true,
            allow_extraction: false,
        }
    }
}

impl Default for SecuritySettings {
    /// No encryption (AES-256 chosen should it be switched on), no passwords,
    /// the default permissions.
    fn default() -> (s: Self)
        ensures
            !s.encryption_enabled,
            s.encryption_algorithm == EncryptionAlgorithm::AES_256,
            !s.password_protected,
            s.user_password is None,
            s.owner_password is None,
            s.permissions.allow_printing && !s.permissions.allow_copying && !s.permissions.allow_modifying
                && s.permissions.allow_annotations && s.permissions.allow_form_filling
                && !s.permissions.allow_extraction,
    {
        SecuritySettings {
            encryption_enabled: false,
            encryption_algorithm: EncryptionAlgorithm::AES_256,
            password_protected: false,
            user_password: None,
            owner_password: None,
            permissions: DocumentPermissions::default(),
        }
    }
}

impl Default for MetadataInclusion {
    /// Every kind of metadata included, no custom properties.
    fn default() -> (m: Self)
        ensures
            m.include_document_info,
            m.include_creator_info,
            m.include_keywords,
            m.include_xmp_metadata,
            m.custom_properties.wf(),
            m.custom_properties.entries@.len() == 0,
    {
        MetadataInclusion {
            include_document_info: true,
            include_creator_info: true,
            include_keywords: true,
            include_xmp_metadata: true,
            custom_properties: StrMap::new(),
        }
    }
}

impl Default for CompressionSettings {
    /// Compression on at level six, images compressed, fonts not, unused
    /// resources removed.
    fn default() -> (c: Self)
        ensures
            c.enable_compression,
            c.compression_level == 6,
            c.compress_images,
            !c.compress_fonts,
            c.remove_unused_resources,
    {
        CompressionSettings {
            enable_compression: true,
            compression_level: 6,
            compress_images: true,
            compress_fonts: false,
            remove_unused_resources: true,
        }
    }
}

impl Default for QualitySettings {
    /// High image quality, balanced text rendering, anti-aliasing, RGB.
    fn default() -> (q: Self)
        ensures
            q.image_quality == ImageQuality::High,
            q.text_rendering == TextRenderingQuality::Balanced,
            q.anti_aliasing,
            q.color_profile is RGB,
    {
        QualitySettings {
            image_quality: ImageQuality::High,
            text_rendering: TextRenderingQuality::Balanced,
            anti_aliasing: true,
            color_profile: ColorProfile::RGB,
        }
    }
}

impl Default for ExportConfiguration {
    /// High image quality with text rendered for print, anti-aliased, RGB;
    /// the default compression, metadata and security settings.
    fn default() -> (c: Self)
        ensures
            c.quality_settings.image_quality == ImageQuality::High,
            c.quality_settings.text_rendering == TextRenderingQuality::PrintOptimized,
            c.quality_settings.anti_aliasing,
            c.quality_settings.color_profile is RGB,
            c.compression_settings == (CompressionSettings {
                enable_compression: true,
                compression_level: 6,
                compress_images: true,
                compress_fonts: false,
                remove_unused_resources: true,
            }),
            c.metadata_inclusion.include_document_info && c.metadata_inclusion.include_creator_info
                && c.metadata_inclusion.include_keywords && c.metadata_inclusion.include_xmp_metadata,
            c.metadata_inclusion.custom_properties.wf(),
            c.metadata_inclusion.custom_properties.entries@.len() == 0,
            !c.security_settings.encryption_enabled,
            c.security_settings.encryption_algorithm == EncryptionAlgorithm::AES_256,
            !c.security_settings.password_protected,
            c.security_settings.user_password is None,
            c.security_settings.owner_password is None,
            c.security_settings.permissions == (DocumentPermissions {
                allow_printing: true,
                allow_copying: false,
                allow_modifying: false,
                allow_annotations: true,
                allow_form_filling: true,
                allow_extraction: false,
            }),
    {
        ExportConfiguration {
            quality_settings: QualitySettings {
                image_quality: ImageQuality::High,
                text_rendering: TextRenderingQuality::PrintOptimized,
                anti_aliasing: true,
                color_profile: ColorProfile::RGB,
            },
            compression_settings: CompressionSettings::default(),
            metadata_inclusion: MetadataInclusion::default(),
            security_settings: SecuritySettings::default(),
        }
    }
}

impl Default for HtmlExportConfig {
    /// An article with a table of contents and navigation, responsive, no
    /// CSS framework.
    fn default() -> (h: Self)
        ensures
            h.template is Article,
            h.css_framework is None,
            h.include_toc,
            h.include_navigation,
            h.responsive_design,
    {
        HtmlExportConfig {
            template: HtmlTemplate::Article,
            css_framework: None,
            include_toc: true,
            include_navigation: true,
            responsive_design: true,
        }
    }
}

impl Default for DocxExportConfig {
    /// No template or style set, no compatibility mode, no change tracking.
    fn default() -> (d: Self)
        ensures
            d.template is None,
            d.style_set is None,
            !d.compatibility_mode,
            !d.track_changes,
    {
        DocxExportConfig { template: None, style_set: None, compatibility_mode: false, track_changes: false }
    }
}

} // verus!
