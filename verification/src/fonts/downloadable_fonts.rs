//! Font collections that can be downloaded, with what their licences ask of
//! the user. The catalog of collections is kept by the program.

use vstd::prelude::*;
use crate::text::{chars_of, push_str, string_from_chars};

verus! {

/// Distribution license types.
#[derive(Debug, Clone, Copy, PartialEq, Eq, Structural)]
pub enum FontDistributionLicense {
    Freeware,
    OpenSource,
    Commercial,
    Educational,
    Trial,
    MicrosoftOwned,
    SystemFonts,
}

/// Font collection categories.
#[derive(Debug, Clone, Copy, PartialEq, Eq, Structural)]
pub enum FontCollectionCategory {
    MicrosoftEssentials,
    MicrosoftComplete,
    GoogleFonts,
    AdobeFonts,
    DeveloperFonts,
    TypographyPacks,
    SystemFonts,
}

/// Font file formats.
#[derive(Debug, Clone, Copy, PartialEq, Eq, Structural)]
pub enum FontFileFormat {
    TTF,
    OTF,
    WOFF,
    WOFF2,
    EOT,
}

/// A weight offered for a font: its CSS value and name.
#[derive(Debug, Clone, Copy)]
pub struct FontWeight {
    pub value: u16,
    pub name: &'static str,
}

/// A style offered for a font.
#[derive(Debug, Clone, Copy)]
pub struct FontStyle {
    pub name: &'static str,
}

/// An individual downloadable font.
#[derive(Debug, Clone, Copy)]
pub struct DownloadableFont {
    pub name: &'static str,
    pub family: &'static str,
    pub weights: &'static [FontWeight],
    pub styles: &'static [FontStyle],
    pub license: FontDistributionLicense,
    pub download_url: Option<&'static str>,
    pub file_size: Option<&'static str>,
    pub file_format: FontFileFormat,
}

/// A collection under this licence must have its licence accepted before
/// download: Microsoft-owned, commercial and trial licences.
pub fn requires_license_acceptance(license: FontDistributionLicense) -> (r: bool)
    ensures
        r == (license == FontDistributionLicense::MicrosoftOwned
            || license == FontDistributionLicense::Commercial
            || license == FontDistributionLicense::Trial),
{
    match license {
        FontDistributionLicense::MicrosoftOwned | FontDistributionLicense::Commercial
        | FontDistributionLicense::Trial => true,
        _ => false,
    }
}

/// The licence agreement shown for a collection of a publisher.
pub open spec fn license_text_of(license: FontDistributionLicense, publisher: Seq<char>) -> Seq<char> {
    match license {
        FontDistributionLicense::MicrosoftOwned => publisher
            + " Font License Agreement\n\nBy downloading these fonts, you agree to Microsoft's Font License Agreement. These fonts are proprietary to Microsoft Corporation and are subject to Microsoft's terms of use.\n\nDistribution of these fonts in your software applications may require additional licensing from Microsoft."@,
        FontDistributionLicense::OpenSource => "Open Source License Agreement\n\n"@ + publisher
            + " fonts are distributed under open source licenses (SIL OFL, Apache, MIT, etc.). You are free to use, modify, and distribute these fonts according to the specific license terms.\n\nSee the individual font pages for specific license details."@,
        FontDistributionLicense::SystemFonts => "System Font Agreement\n\nThese fonts are already installed on your operating system. No download or additional licensing is required. Usage is governed by your operating system's font license terms."@,
        _ => "License information not available."@,
    }
}

/// The licence agreement for a collection under a licence from a publisher.
pub fn get_license_text(license: FontDistributionLicense, publisher: &str) -> (r: String)
    ensures
        r@ == license_text_of(license, publisher@),
{
    let mut v: Vec<char> = Vec::new();
    match license {
        FontDistributionLicense::MicrosoftOwned => {
            push_str(&mut v, publisher);
            push_str(&mut v, " Font License Agreement\n\nBy downloading these fonts, you agree to Microsoft's Font License Agreement. These fonts are proprietary to Microsoft Corporation and are subject to Microsoft's terms of use.\n\nDistribution of these fonts in your software applications may require additional licensing from Microsoft.");
        },
        FontDistributionLicense::OpenSource => {
            push_str(&mut v, "Open Source License Agreement\n\n");
            push_str(&mut v, publisher);
            push_str(&mut v, " fonts are distributed under open source licenses (SIL OFL, Apache, MIT, etc.). You are free to use, modify, and distribute these fonts according to the specific license terms.\n\nSee the individual font pages for specific license details.");
        },
        FontDistributionLicense::SystemFonts => {
            push_str(&mut v, "System Font Agreement\n\nThese fonts are already installed on your operating system. No download or additional licensing is required. Usage is governed by your operating system's font license terms.");
        },
        _ => {
            push_str(&mut v, "License information not available.");
        },
    }
    assert(v@ =~= license_text_of(license, publisher@));
    string_from_chars(&v)
}

/// What the user is advised to do for a collection under a licence.
pub open spec fn recommendations_of(license: FontDistributionLicense) -> Seq<Seq<char>> {
    match license {
        FontDistributionLicense::MicrosoftOwned => seq![
            "Review Microsoft's Font License Agreement"@,
            "Ensure compliance with Microsoft's terms"@,
            "Consider purchasing commercial licenses if redistributing"@,
            "Contact Microsoft for enterprise licensing if needed"@
        ],
        FontDistributionLicense::OpenSource => seq![
            "Review specific open source license terms"@,
            "Include license attribution where required"@,
            "Maintain license files in your distribution"@
        ],
        FontDistributionLicense::Commercial => seq![
            "Purchase appropriate commercial licenses"@,
            "Keep purchase receipts for compliance"@,
            "Review vendor-specific licensing terms"@
        ],
        FontDistributionLicense::SystemFonts => seq!["No action required - fonts already licensed with OS"@],
        _ => seq!["Review licensing terms before use"@],
    }
}

/// The recommended steps for licensing compliance.
pub fn get_licensing_recommendations(license: FontDistributionLicense) -> (r: Vec<String>)
    ensures
        crate::text::string_views(r@) == recommendations_of(license),
{
    let mut r: Vec<String> = Vec::new();
    match license {
        FontDistributionLicense::MicrosoftOwned => {
            r.push("Review Microsoft's Font License Agreement".to_string());
            r.push("Ensure compliance with Microsoft's terms".to_string());
            r.push("Consider purchasing commercial licenses if redistributing".to_string());
            r.push("Contact Microsoft for enterprise licensing if needed".to_string());
        },
        FontDistributionLicense::OpenSource => {
            r.push("Review specific open source license terms".to_string());
            r.push("Include license attribution where required".to_string());
            r.push("Maintain license files in your distribution".to_string());
        },
        FontDistributionLicense::Commercial => {
            r.push("Purchase appropriate commercial licenses".to_string());
            r.push("Keep purchase receipts for compliance".to_string());
            r.push("Review vendor-specific licensing terms".to_string());
        },
        FontDistributionLicense::SystemFonts => {
            r.push("No action required - fonts already licensed with OS".to_string());
        },
        _ => {
            r.push("Review licensing terms before use".to_string());
        },
    }
    assert(crate::text::string_views(r@) =~= recommendations_of(license));
    r
}

} // verus!
