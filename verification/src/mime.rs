//! MIME types by file extension.

use vstd::prelude::*;

use vstd::utf8::is_ascii_chars;

use crate::text::same_text;

verus! {

/// The MIME type that the server announces for a file with the given
/// extension (compared exactly, case included); anything not in the
/// table is served as `application/octet-stream`.
pub open spec fn known_mime_type(extension: Seq<char>) -> Seq<char> {
    if extension == "323"@ {
        "text/h323; charset=utf8"@
    } else if extension == "3g2"@ {
        "video/3gpp2"@
    } else if extension == "3gp"@ {
        "video/3gpp"@
    } else if extension == "3gp2"@ {
        "video/3gpp2"@
    } else if extension == "3gpp"@ {
        "video/3gpp"@
    } else if extension == "7z"@ {
        "application/x-7z-compressed"@
    } else if extension == "aa"@ {
        "audio/audible"@
    } else if extension == "aac"@ {
        "audio/aac"@
    } else if extension == "aaf"@ {
        "application/octet-stream"@
    } else if extension == "aax"@ {
        "audio/vnd.audible.aax"@
    } else if extension == "ac3"@ {
        "audio/ac3"@
    } else if extension == "aca"@ {
        "application/octet-stream"@
    } else if extension == "accda"@ {
        "application/msaccess.addin"@
    } else if extension == "accdb"@ {
        "application/msaccess"@
    } else if extension == "accdc"@ {
        "application/msaccess.cab"@
    } else if extension == "accde"@ {
        "application/msaccess"@
    } else if extension == "accdr"@ {
        "application/msaccess.runtime"@
    } else if extension == "accdt"@ {
        "application/msaccess"@
    } else if extension == "accdw"@ {
        "application/msaccess.webapplication"@
    } else if extension == "accft"@ {
        "application/msaccess.ftemplate"@
    } else if extension == "acx"@ {
        "application/internet-property-stream"@
    } else if extension == "addin"@ {
        "application/xml"@
    } else if extension == "ade"@ {
        "application/msaccess"@
    } else if extension == "adobebridge"@ {
        "application/x-bridge-url"@
    } else if extension == "adp"@ {
        "application/msaccess"@
    } else if extension == "adt"@ {
        "audio/vnd.dlna.adts"@
    } else if extension == "adts"@ {
        "audio/aac"@
    } else if extension == "afm"@ {
        "application/octet-stream"@
    } else if extension == "ai"@ {
        "application/postscript"@
    } else if extension == "aif"@ {
        "audio/x-aiff"@
    } else if extension == "aifc"@ {
        "audio/aiff"@
    } else if extension == "aiff"@ {
        "audio/aiff"@
    } else if extension == "air"@ {
        "application/vnd.adobe.air-application-installer-package+zip"@
    } else if extension == "amc"@ {
        "application/x-mpeg"@
    } else if extension == "application"@ {
        "application/x-ms-application"@
    } else if extension == "art"@ {
        "image/x-jg"@
    } else if extension == "asa"@ {
        "application/xml"@
    } else if extension == "asax"@ {
        "application/xml"@
    } else if extension == "ascx"@ {
        "application/xml"@
    } else if extension == "asd"@ {
        "application/octet-stream"@
    } else if extension == "asf"@ {
        "video/x-ms-asf"@
    } else if extension == "ashx"@ {
        "application/xml"@
    } else if extension == "asi"@ {
        "application/octet-stream"@
    } else if extension == "asm"@ {
        "text/plain; charset=utf8"@
    } else if extension == "asmx"@ {
        "application/xml"@
    } else if extension == "aspx"@ {
        "application/xml"@
    } else if extension == "asr"@ {
        "video/x-ms-asf"@
    } else if extension == "asx"@ {
        "video/x-ms-asf"@
    } else if extension == "atom"@ {
        "application/atom+xml"@
    } else if extension == "au"@ {
        "audio/basic"@
    } else if extension == "avi"@ {
        "video/x-msvideo"@
    } else if extension == "axs"@ {
        "application/olescript"@
    } else if extension == "bas"@ {
        "text/plain; charset=utf8"@
    } else if extension == "bcpio"@ {
        "application/x-bcpio"@
    } else if extension == "bin"@ {
        "application/octet-stream"@
    } else if extension == "bmp"@ {
        "image/bmp"@
    } else if extension == "c"@ {
        "text/plain; charset=utf8"@
    } else if extension == "cab"@ {
        "application/octet-stream"@
    } else if extension == "caf"@ {
        "audio/x-caf"@
    } else if extension == "calx"@ {
        "application/vnd.ms-office.calx"@
    } else if extension == "cat"@ {
        "application/vnd.ms-pki.seccat"@
    } else if extension == "cc"@ {
        "text/plain; charset=utf8"@
    } else if extension == "cd"@ {
        "text/plain; charset=utf8"@
    } else if extension == "cdda"@ {
        "audio/aiff"@
    } else if extension == "cdf"@ {
        "application/x-cdf"@
    } else if extension == "cer"@ {
        "application/x-x509-ca-cert"@
    } else if extension == "chm"@ {
        "application/octet-stream"@
    } else if extension == "class"@ {
        "application/x-java-applet"@
    } else if extension == "clp"@ {
        "application/x-msclip"@
    } else if extension == "cmx"@ {
        "image/x-cmx"@
    } else if extension == "cnf"@ {
        "text/plain; charset=utf8"@
    } else if extension == "cod"@ {
        "image/cis-cod"@
    } else if extension == "config"@ {
        "application/xml"@
    } else if extension == "contact"@ {
        "text/x-ms-contact; charset=utf8"@
    } else if extension == "coverage"@ {
        "application/xml"@
    } else if extension == "cpio"@ {
        "application/x-cpio"@
    } else if extension == "cpp"@ {
        "text/plain; charset=utf8"@
    } else if extension == "crd"@ {
        "application/x-mscardfile"@
    } else if extension == "crl"@ {
        "application/pkix-crl"@
    } else if extension == "crt"@ {
        "application/x-x509-ca-cert"@
    } else if extension == "cs"@ {
        "text/plain; charset=utf8"@
    } else if extension == "csdproj"@ {
        "text/plain; charset=utf8"@
    } else if extension == "csh"@ {
        "application/x-csh"@
    } else if extension == "csproj"@ {
        "text/plain; charset=utf8"@
    } else if extension == "css"@ {
        "text/css; charset=utf8"@
    } else if extension == "csv"@ {
        "text/csv; charset=utf8"@
    } else if extension == "cur"@ {
        "application/octet-stream"@
    } else if extension == "cxx"@ {
        "text/plain; charset=utf8"@
    } else if extension == "dat"@ {
        "application/octet-stream"@
    } else if extension == "datasource"@ {
        "application/xml"@
    } else if extension == "dbproj"@ {
        "text/plain; charset=utf8"@
    } else if extension == "dcr"@ {
        "application/x-director"@
    } else if extension == "def"@ {
        "text/plain; charset=utf8"@
    } else if extension == "deploy"@ {
        "application/octet-stream"@
    } else if extension == "der"@ {
        "application/x-x509-ca-cert"@
    } else if extension == "dgml"@ {
        "application/xml"@
    } else if extension == "dib"@ {
        "image/bmp"@
    } else if extension == "dif"@ {
        "video/x-dv"@
    } else if extension == "dir"@ {
        "application/x-director"@
    } else if extension == "disco"@ {
        "application/xml"@
    } else if extension == "dll"@ {
        "application/x-msdownload"@
    } else if extension == "dll.config"@ {
        "application/xml"@
    } else if extension == "dlm"@ {
        "text/dlm; charset=utf8"@
    } else if extension == "doc"@ {
        "application/msword"@
    } else if extension == "docm"@ {
        "application/vnd.ms-word.document.macroEnabled.12"@
    } else if extension == "docx"@ {
        "application/vnd.openxmlformats-officedocument.wordprocessingml.document"@
    } else if extension == "dot"@ {
        "application/msword"@
    } else if extension == "dotm"@ {
        "application/vnd.ms-word.template.macroEnabled.12"@
    } else if extension == "dotx"@ {
        "application/vnd.openxmlformats-officedocument.wordprocessingml.template"@
    } else if extension == "dsp"@ {
        "application/octet-stream"@
    } else if extension == "dsw"@ {
        "text/plain; charset=utf8"@
    } else if extension == "dtd"@ {
        "application/xml"@
    } else if extension == "dtsConfig"@ {
        "application/xml"@
    } else if extension == "dv"@ {
        "video/x-dv"@
    } else if extension == "dvi"@ {
        "application/x-dvi"@
    } else if extension == "dwf"@ {
        "drawing/x-dwf"@
    } else if extension == "dwp"@ {
        "application/octet-stream"@
    } else if extension == "dxr"@ {
        "application/x-director"@
    } else if extension == "eml"@ {
        "message/rfc822"@
    } else if extension == "emz"@ {
        "application/octet-stream"@
    } else if extension == "eot"@ {
        "application/vnd.ms-fontobject"@
    } else if extension == "eps"@ {
        "application/postscript"@
    } else if extension == "etl"@ {
        "application/etl"@
    } else if extension == "etx"@ {
        "text/x-setext; charset=utf8"@
    } else if extension == "evy"@ {
        "application/envoy"@
    } else if extension == "exe"@ {
        "application/octet-stream"@
    } else if extension == "exe.config"@ {
        "application/xml"@
    } else if extension == "fdf"@ {
        "application/vnd.fdf"@
    } else if extension == "fif"@ {
        "application/fractals"@
    } else if extension == "filters"@ {
        "Application/xml"@
    } else if extension == "fla"@ {
        "application/octet-stream"@
    } else if extension == "flr"@ {
        "x-world/x-vrml"@
    } else if extension == "flv"@ {
        "video/x-flv"@
    } else if extension == "fsscript"@ {
        "application/fsharp-script"@
    } else if extension == "fsx"@ {
        "application/fsharp-script"@
    } else if extension == "generictest"@ {
        "application/xml"@
    } else if extension == "gif"@ {
        "image/gif"@
    } else if extension == "group"@ {
        "text/x-ms-group; charset=utf8"@
    } else if extension == "gsm"@ {
        "audio/x-gsm"@
    } else if extension == "gtar"@ {
        "application/x-gtar"@
    } else if extension == "gz"@ {
        "application/x-gzip"@
    } else if extension == "h"@ {
        "text/plain; charset=utf8"@
    } else if extension == "hdf"@ {
        "application/x-hdf"@
    } else if extension == "hdml"@ {
        "text/x-hdml; charset=utf8"@
    } else if extension == "hhc"@ {
        "application/x-oleobject"@
    } else if extension == "hhk"@ {
        "application/octet-stream"@
    } else if extension == "hhp"@ {
        "application/octet-stream"@
    } else if extension == "hlp"@ {
        "application/winhlp"@
    } else if extension == "hpp"@ {
        "text/plain; charset=utf8"@
    } else if extension == "hqx"@ {
        "application/mac-binhex40"@
    } else if extension == "hta"@ {
        "application/hta"@
    } else if extension == "htc"@ {
        "text/x-component; charset=utf8"@
    } else if extension == "htm"@ {
        "text/html; charset=utf8"@
    } else if extension == "html"@ {
        "text/html; charset=utf8"@
    } else if extension == "htt"@ {
        "text/webviewhtml; charset=utf8"@
    } else if extension == "hxa"@ {
        "application/xml"@
    } else if extension == "hxc"@ {
        "application/xml"@
    } else if extension == "hxd"@ {
        "application/octet-stream"@
    } else if extension == "hxe"@ {
        "application/xml"@
    } else if extension == "hxf"@ {
        "application/xml"@
    } else if extension == "hxh"@ {
        "application/octet-stream"@
    } else if extension == "hxi"@ {
        "application/octet-stream"@
    } else if extension == "hxk"@ {
        "application/xml"@
    } else if extension == "hxq"@ {
        "application/octet-stream"@
    } else if extension == "hxr"@ {
        "application/octet-stream"@
    } else if extension == "hxs"@ {
        "application/octet-stream"@
    } else if extension == "hxt"@ {
        "text/html; charset=utf8"@
    } else if extension == "hxv"@ {
        "application/xml"@
    } else if extension == "hxw"@ {
        "application/octet-stream"@
    } else if extension == "hxx"@ {
        "text/plain; charset=utf8"@
    } else if extension == "i"@ {
        "text/plain; charset=utf8"@
    } else if extension == "ico"@ {
        "image/x-icon"@
    } else if extension == "ics"@ {
        "application/octet-stream"@
    } else if extension == "idl"@ {
        "text/plain; charset=utf8"@
    } else if extension == "ief"@ {
        "image/ief"@
    } else if extension == "iii"@ {
        "application/x-iphone"@
    } else if extension == "inc"@ {
        "text/plain; charset=utf8"@
    } else if extension == "inf"@ {
        "application/octet-stream"@
    } else if extension == "inl"@ {
        "text/plain; charset=utf8"@
    } else if extension == "ins"@ {
        "application/x-internet-signup"@
    } else if extension == "ipa"@ {
        "application/x-itunes-ipa"@
    } else if extension == "ipg"@ {
        "application/x-itunes-ipg"@
    } else if extension == "ipproj"@ {
        "text/plain; charset=utf8"@
    } else if extension == "ipsw"@ {
        "application/x-itunes-ipsw"@
    } else if extension == "iqy"@ {
        "text/x-ms-iqy; charset=utf8"@
    } else if extension == "isp"@ {
        "application/x-internet-signup"@
    } else if extension == "ite"@ {
        "application/x-itunes-ite"@
    } else if extension == "itlp"@ {
        "application/x-itunes-itlp"@
    } else if extension == "itms"@ {
        "application/x-itunes-itms"@
    } else if extension == "itpc"@ {
        "application/x-itunes-itpc"@
    } else if extension == "ivf"@ {
        "video/x-ivf"@
    } else if extension == "jar"@ {
        "application/java-archive"@
    } else if extension == "java"@ {
        "application/octet-stream"@
    } else if extension == "jck"@ {
        "application/liquidmotion"@
    } else if extension == "jcz"@ {
        "application/liquidmotion"@
    } else if extension == "jfif"@ {
        "image/pjpeg"@
    } else if extension == "jnlp"@ {
        "application/x-java-jnlp-file"@
    } else if extension == "jpb"@ {
        "application/octet-stream"@
    } else if extension == "jpe"@ {
        "image/jpeg"@
    } else if extension == "jpeg"@ {
        "image/jpeg"@
    } else if extension == "jpg"@ {
        "image/jpeg"@
    } else if extension == "js"@ {
        "application/javascript"@
    } else if extension == "json"@ {
        "application/json"@
    } else if extension == "jsx"@ {
        "text/jscript; charset=utf8"@
    } else if extension == "jsxbin"@ {
        "text/plain; charset=utf8"@
    } else if extension == "latex"@ {
        "application/x-latex"@
    } else if extension == "library-ms"@ {
        "application/windows-library+xml"@
    } else if extension == "lit"@ {
        "application/x-ms-reader"@
    } else if extension == "loadtest"@ {
        "application/xml"@
    } else if extension == "lpk"@ {
        "application/octet-stream"@
    } else if extension == "lsf"@ {
        "video/x-la-asf"@
    } else if extension == "lst"@ {
        "text/plain; charset=utf8"@
    } else if extension == "lsx"@ {
        "video/x-la-asf"@
    } else if extension == "lzh"@ {
        "application/octet-stream"@
    } else if extension == "m13"@ {
        "application/x-msmediaview"@
    } else if extension == "m14"@ {
        "application/x-msmediaview"@
    } else if extension == "m1v"@ {
        "video/mpeg"@
    } else if extension == "m2t"@ {
        "video/vnd.dlna.mpeg-tts"@
    } else if extension == "m2ts"@ {
        "video/vnd.dlna.mpeg-tts"@
    } else if extension == "m2v"@ {
        "video/mpeg"@
    } else if extension == "m3u"@ {
        "audio/x-mpegurl"@
    } else if extension == "m3u8"@ {
        "audio/x-mpegurl"@
    } else if extension == "m4a"@ {
        "audio/m4a"@
    } else if extension == "m4b"@ {
        "audio/m4b"@
    } else if extension == "m4p"@ {
        "audio/m4p"@
    } else if extension == "m4r"@ {
        "audio/x-m4r"@
    } else if extension == "m4v"@ {
        "video/x-m4v"@
    } else if extension == "mac"@ {
        "image/x-macpaint"@
    } else if extension == "mak"@ {
        "text/plain; charset=utf8"@
    } else if extension == "man"@ {
        "application/x-troff-man"@
    } else if extension == "manifest"@ {
        "application/x-ms-manifest"@
    } else if extension == "map"@ {
        "text/plain; charset=utf8"@
    } else if extension == "master"@ {
        "application/xml"@
    } else if extension == "mda"@ {
        "application/msaccess"@
    } else if extension == "mdb"@ {
        "application/x-msaccess"@
    } else if extension == "mde"@ {
        "application/msaccess"@
    } else if extension == "mdp"@ {
        "application/octet-stream"@
    } else if extension == "me"@ {
        "application/x-troff-me"@
    } else if extension == "mfp"@ {
        "application/x-shockwave-flash"@
    } else if extension == "mht"@ {
        "message/rfc822"@
    } else if extension == "mhtml"@ {
        "message/rfc822"@
    } else if extension == "mid"@ {
        "audio/mid"@
    } else if extension == "midi"@ {
        "audio/mid"@
    } else if extension == "mix"@ {
        "application/octet-stream"@
    } else if extension == "mjs"@ {
        "application/javascript"@
    } else if extension == "mk"@ {
        "text/plain; charset=utf8"@
    } else if extension == "mmf"@ {
        "application/x-smaf"@
    } else if extension == "mno"@ {
        "application/xml"@
    } else if extension == "mny"@ {
        "application/x-msmoney"@
    } else if extension == "mod"@ {
        "video/mpeg"@
    } else if extension == "mov"@ {
        "video/quicktime"@
    } else if extension == "movie"@ {
        "video/x-sgi-movie"@
    } else if extension == "mp2"@ {
        "video/mpeg"@
    } else if extension == "mp2v"@ {
        "video/mpeg"@
    } else if extension == "mp3"@ {
        "audio/mpeg"@
    } else if extension == "mp4"@ {
        "video/mp4"@
    } else if extension == "mp4v"@ {
        "video/mp4"@
    } else if extension == "mpa"@ {
        "video/mpeg"@
    } else if extension == "mpe"@ {
        "video/mpeg"@
    } else if extension == "mpeg"@ {
        "video/mpeg"@
    } else if extension == "mpf"@ {
        "application/vnd.ms-mediapackage"@
    } else if extension == "mpg"@ {
        "video/mpeg"@
    } else if extension == "mpp"@ {
        "application/vnd.ms-project"@
    } else if extension == "mpv2"@ {
        "video/mpeg"@
    } else if extension == "mqv"@ {
        "video/quicktime"@
    } else if extension == "ms"@ {
        "application/x-troff-ms"@
    } else if extension == "msi"@ {
        "application/octet-stream"@
    } else if extension == "mso"@ {
        "application/octet-stream"@
    } else if extension == "mts"@ {
        "video/vnd.dlna.mpeg-tts"@
    } else if extension == "mtx"@ {
        "application/xml"@
    } else if extension == "mvb"@ {
        "application/x-msmediaview"@
    } else if extension == "mvc"@ {
        "application/x-miva-compiled"@
    } else if extension == "mxp"@ {
        "application/x-mmxp"@
    } else if extension == "nc"@ {
        "application/x-netcdf"@
    } else if extension == "nsc"@ {
        "video/x-ms-asf"@
    } else if extension == "nws"@ {
        "message/rfc822"@
    } else if extension == "ocx"@ {
        "application/octet-stream"@
    } else if extension == "oda"@ {
        "application/oda"@
    } else if extension == "odc"@ {
        "text/x-ms-odc; charset=utf8"@
    } else if extension == "odh"@ {
        "text/plain; charset=utf8"@
    } else if extension == "odl"@ {
        "text/plain; charset=utf8"@
    } else if extension == "odp"@ {
        "application/vnd.oasis.opendocument.presentation"@
    } else if extension == "ods"@ {
        "application/oleobject"@
    } else if extension == "odt"@ {
        "application/vnd.oasis.opendocument.text"@
    } else if extension == "ogg"@ {
        "application/ogg"@
    } else if extension == "one"@ {
        "application/onenote"@
    } else if extension == "onea"@ {
        "application/onenote"@
    } else if extension == "onepkg"@ {
        "application/onenote"@
    } else if extension == "onetmp"@ {
        "application/onenote"@
    } else if extension == "onetoc"@ {
        "application/onenote"@
    } else if extension == "onetoc2"@ {
        "application/onenote"@
    } else if extension == "orderedtest"@ {
        "application/xml"@
    } else if extension == "osdx"@ {
        "application/opensearchdescription+xml"@
    } else if extension == "otf"@ {
        "application/x-font-opentype"@
    } else if extension == "p10"@ {
        "application/pkcs10"@
    } else if extension == "p12"@ {
        "application/x-pkcs12"@
    } else if extension == "p7b"@ {
        "application/x-pkcs7-certificates"@
    } else if extension == "p7c"@ {
        "application/pkcs7-mime"@
    } else if extension == "p7m"@ {
        "application/pkcs7-mime"@
    } else if extension == "p7r"@ {
        "application/x-pkcs7-certreqresp"@
    } else if extension == "p7s"@ {
        "application/pkcs7-signature"@
    } else if extension == "pbm"@ {
        "image/x-portable-bitmap"@
    } else if extension == "pcast"@ {
        "application/x-podcast"@
    } else if extension == "pct"@ {
        "image/pict"@
    } else if extension == "pcx"@ {
        "application/octet-stream"@
    } else if extension == "pcz"@ {
        "application/octet-stream"@
    } else if extension == "pdf"@ {
        "application/pdf"@
    } else if extension == "pfb"@ {
        "application/octet-stream"@
    } else if extension == "pfm"@ {
        "application/octet-stream"@
    } else if extension == "pfx"@ {
        "application/x-pkcs12"@
    } else if extension == "pgm"@ {
        "image/x-portable-graymap"@
    } else if extension == "pic"@ {
        "image/pict"@
    } else if extension == "pict"@ {
        "image/pict"@
    } else if extension == "pkgdef"@ {
        "text/plain; charset=utf8"@
    } else if extension == "pkgundef"@ {
        "text/plain; charset=utf8"@
    } else if extension == "pko"@ {
        "application/vnd.ms-pki.pko"@
    } else if extension == "pls"@ {
        "audio/scpls"@
    } else if extension == "pma"@ {
        "application/x-perfmon"@
    } else if extension == "pmc"@ {
        "application/x-perfmon"@
    } else if extension == "pml"@ {
        "application/x-perfmon"@
    } else if extension == "pmr"@ {
        "application/x-perfmon"@
    } else if extension == "pmw"@ {
        "application/x-perfmon"@
    } else if extension == "png"@ {
        "image/png"@
    } else if extension == "pnm"@ {
        "image/x-portable-anymap"@
    } else if extension == "pnt"@ {
        "image/x-macpaint"@
    } else if extension == "pntg"@ {
        "image/x-macpaint"@
    } else if extension == "pnz"@ {
        "image/png"@
    } else if extension == "pot"@ {
        "application/vnd.ms-powerpoint"@
    } else if extension == "potm"@ {
        "application/vnd.ms-powerpoint.template.macroEnabled.12"@
    } else if extension == "potx"@ {
        "application/vnd.openxmlformats-officedocument.presentationml.template"@
    } else if extension == "ppa"@ {
        "application/vnd.ms-powerpoint"@
    } else if extension == "ppam"@ {
        "application/vnd.ms-powerpoint.addin.macroEnabled.12"@
    } else if extension == "ppm"@ {
        "image/x-portable-pixmap"@
    } else if extension == "pps"@ {
        "application/vnd.ms-powerpoint"@
    } else if extension == "ppsm"@ {
        "application/vnd.ms-powerpoint.slideshow.macroEnabled.12"@
    } else if extension == "ppsx"@ {
        "application/vnd.openxmlformats-officedocument.presentationml.slideshow"@
    } else if extension == "ppt"@ {
        "application/vnd.ms-powerpoint"@
    } else if extension == "pptm"@ {
        "application/vnd.ms-powerpoint.presentation.macroEnabled.12"@
    } else if extension == "pptx"@ {
        "application/vnd.openxmlformats-officedocument.presentationml.presentation"@
    } else if extension == "prf"@ {
        "application/pics-rules"@
    } else if extension == "prm"@ {
        "application/octet-stream"@
    } else if extension == "prx"@ {
        "application/octet-stream"@
    } else if extension == "ps"@ {
        "application/postscript"@
    } else if extension == "psc1"@ {
        "application/PowerShell"@
    } else if extension == "psd"@ {
        "application/octet-stream"@
    } else if extension == "psess"@ {
        "application/xml"@
    } else if extension == "psm"@ {
        "application/octet-stream"@
    } else if extension == "psp"@ {
        "application/octet-stream"@
    } else if extension == "pub"@ {
        "application/x-mspublisher"@
    } else if extension == "pwz"@ {
        "application/vnd.ms-powerpoint"@
    } else if extension == "qht"@ {
        "text/x-html-insertion; charset=utf8"@
    } else if extension == "qhtm"@ {
        "text/x-html-insertion; charset=utf8"@
    } else if extension == "qt"@ {
        "video/quicktime"@
    } else if extension == "qti"@ {
        "image/x-quicktime"@
    } else if extension == "qtif"@ {
        "image/x-quicktime"@
    } else if extension == "qtl"@ {
        "application/x-quicktimeplayer"@
    } else if extension == "qxd"@ {
        "application/octet-stream"@
    } else if extension == "ra"@ {
        "audio/x-pn-realaudio"@
    } else if extension == "ram"@ {
        "audio/x-pn-realaudio"@
    } else if extension == "rar"@ {
        "application/octet-stream"@
    } else if extension == "ras"@ {
        "image/x-cmu-raster"@
    } else if extension == "rat"@ {
        "application/rat-file"@
    } else if extension == "rc"@ {
        "text/plain; charset=utf8"@
    } else if extension == "rc2"@ {
        "text/plain; charset=utf8"@
    } else if extension == "rct"@ {
        "text/plain; charset=utf8"@
    } else if extension == "rdlc"@ {
        "application/xml"@
    } else if extension == "resx"@ {
        "application/xml"@
    } else if extension == "rf"@ {
        "image/vnd.rn-realflash"@
    } else if extension == "rgb"@ {
        "image/x-rgb"@
    } else if extension == "rgs"@ {
        "text/plain; charset=utf8"@
    } else if extension == "rm"@ {
        "application/vnd.rn-realmedia"@
    } else if extension == "rmi"@ {
        "audio/mid"@
    } else if extension == "rmp"@ {
        "application/vnd.rn-rn_music_package"@
    } else if extension == "roff"@ {
        "application/x-troff"@
    } else if extension == "rpm"@ {
        "audio/x-pn-realaudio-plugin"@
    } else if extension == "rqy"@ {
        "text/x-ms-rqy; charset=utf8"@
    } else if extension == "rtf"@ {
        "application/rtf"@
    } else if extension == "rtx"@ {
        "text/richtext; charset=utf8"@
    } else if extension == "ruleset"@ {
        "application/xml"@
    } else if extension == "s"@ {
        "text/plain; charset=utf8"@
    } else if extension == "safariextz"@ {
        "application/x-safari-safariextz"@
    } else if extension == "scd"@ {
        "application/x-msschedule"@
    } else if extension == "sct"@ {
        "text/scriptlet; charset=utf8"@
    } else if extension == "sd2"@ {
        "audio/x-sd2"@
    } else if extension == "sdp"@ {
        "application/sdp"@
    } else if extension == "sea"@ {
        "application/octet-stream"@
    } else if extension == "searchConnector-ms"@ {
        "application/windows-search-connector+xml"@
    } else if extension == "setpay"@ {
        "application/set-payment-initiation"@
    } else if extension == "setreg"@ {
        "application/set-registration-initiation"@
    } else if extension == "settings"@ {
        "application/xml"@
    } else if extension == "sfnt"@ {
        "application/font-sfnt"@
    } else if extension == "sgimb"@ {
        "application/x-sgimb"@
    } else if extension == "sgml"@ {
        "text/sgml; charset=utf8"@
    } else if extension == "sh"@ {
        "application/x-sh"@
    } else if extension == "shar"@ {
        "application/x-shar"@
    } else if extension == "shtml"@ {
        "text/html; charset=utf8"@
    } else if extension == "sit"@ {
        "application/x-stuffit"@
    } else if extension == "sitemap"@ {
        "application/xml"@
    } else if extension == "skin"@ {
        "application/xml"@
    } else if extension == "sldm"@ {
        "application/vnd.ms-powerpoint.slide.macroEnabled.12"@
    } else if extension == "sldx"@ {
        "application/vnd.openxmlformats-officedocument.presentationml.slide"@
    } else if extension == "slk"@ {
        "application/vnd.ms-excel"@
    } else if extension == "sln"@ {
        "text/plain; charset=utf8"@
    } else if extension == "slupkg-ms"@ {
        "application/x-ms-license"@
    } else if extension == "smd"@ {
        "audio/x-smd"@
    } else if extension == "smi"@ {
        "application/octet-stream"@
    } else if extension == "smx"@ {
        "audio/x-smd"@
    } else if extension == "smz"@ {
        "audio/x-smd"@
    } else if extension == "snd"@ {
        "audio/basic"@
    } else if extension == "snippet"@ {
        "application/xml"@
    } else if extension == "snp"@ {
        "application/octet-stream"@
    } else if extension == "sol"@ {
        "text/plain; charset=utf8"@
    } else if extension == "sor"@ {
        "text/plain; charset=utf8"@
    } else if extension == "spc"@ {
        "application/x-pkcs7-certificates"@
    } else if extension == "spl"@ {
        "application/futuresplash"@
    } else if extension == "src"@ {
        "application/x-wais-source"@
    } else if extension == "srf"@ {
        "text/plain; charset=utf8"@
    } else if extension == "ssisdeploymentmanifest"@ {
        "application/xml"@
    } else if extension == "ssm"@ {
        "application/streamingmedia"@
    } else if extension == "sst"@ {
        "application/vnd.ms-pki.certstore"@
    } else if extension == "stl"@ {
        "application/vnd.ms-pki.stl"@
    } else if extension == "sv4cpio"@ {
        "application/x-sv4cpio"@
    } else if extension == "sv4crc"@ {
        "application/x-sv4crc"@
    } else if extension == "svc"@ {
        "application/xml"@
    } else if extension == "svg"@ {
        "image/svg+xml"@
    } else if extension == "swf"@ {
        "application/x-shockwave-flash"@
    } else if extension == "t"@ {
        "application/x-troff"@
    } else if extension == "tar"@ {
        "application/x-tar"@
    } else if extension == "tcl"@ {
        "application/x-tcl"@
    } else if extension == "testrunconfig"@ {
        "application/xml"@
    } else if extension == "testsettings"@ {
        "application/xml"@
    } else if extension == "tex"@ {
        "application/x-tex"@
    } else if extension == "texi"@ {
        "application/x-texinfo"@
    } else if extension == "texinfo"@ {
        "application/x-texinfo"@
    } else if extension == "tgz"@ {
        "application/x-compressed"@
    } else if extension == "thmx"@ {
        "application/vnd.ms-officetheme"@
    } else if extension == "thn"@ {
        "application/octet-stream"@
    } else if extension == "tif"@ {
        "image/tiff"@
    } else if extension == "tiff"@ {
        "image/tiff"@
    } else if extension == "tlh"@ {
        "text/plain; charset=utf8"@
    } else if extension == "tli"@ {
        "text/plain; charset=utf8"@
    } else if extension == "toc"@ {
        "application/octet-stream"@
    } else if extension == "tr"@ {
        "application/x-troff"@
    } else if extension == "trm"@ {
        "application/x-msterminal"@
    } else if extension == "trx"@ {
        "application/xml"@
    } else if extension == "ts"@ {
        "video/vnd.dlna.mpeg-tts"@
    } else if extension == "tsv"@ {
        "text/tab-separated-values; charset=utf8"@
    } else if extension == "ttf"@ {
        "application/x-font-ttf"@
    } else if extension == "tts"@ {
        "video/vnd.dlna.mpeg-tts"@
    } else if extension == "txt"@ {
        "text/plain; charset=utf8"@
    } else if extension == "u32"@ {
        "application/octet-stream"@
    } else if extension == "uls"@ {
        "text/iuls; charset=utf8"@
    } else if extension == "user"@ {
        "text/plain; charset=utf8"@
    } else if extension == "ustar"@ {
        "application/x-ustar"@
    } else if extension == "vb"@ {
        "text/plain; charset=utf8"@
    } else if extension == "vbdproj"@ {
        "text/plain; charset=utf8"@
    } else if extension == "vbk"@ {
        "video/mpeg"@
    } else if extension == "vbproj"@ {
        "text/plain; charset=utf8"@
    } else if extension == "vbs"@ {
        "text/vbscript; charset=utf8"@
    } else if extension == "vcf"@ {
        "text/x-vcard; charset=utf8"@
    } else if extension == "vcproj"@ {
        "Application/xml"@
    } else if extension == "vcs"@ {
        "text/plain; charset=utf8"@
    } else if extension == "vcxproj"@ {
        "Application/xml"@
    } else if extension == "vddproj"@ {
        "text/plain; charset=utf8"@
    } else if extension == "vdp"@ {
        "text/plain; charset=utf8"@
    } else if extension == "vdproj"@ {
        "text/plain; charset=utf8"@
    } else if extension == "vdx"@ {
        "application/vnd.ms-visio.viewer"@
    } else if extension == "vml"@ {
        "application/xml"@
    } else if extension == "vscontent"@ {
        "application/xml"@
    } else if extension == "vsct"@ {
        "application/xml"@
    } else if extension == "vsd"@ {
        "application/vnd.visio"@
    } else if extension == "vsi"@ {
        "application/ms-vsi"@
    } else if extension == "vsix"@ {
        "application/vsix"@
    } else if extension == "vsixlangpack"@ {
        "application/xml"@
    } else if extension == "vsixmanifest"@ {
        "application/xml"@
    } else if extension == "vsmdi"@ {
        "application/xml"@
    } else if extension == "vspscc"@ {
        "text/plain; charset=utf8"@
    } else if extension == "vss"@ {
        "application/vnd.visio"@
    } else if extension == "vsscc"@ {
        "text/plain; charset=utf8"@
    } else if extension == "vssettings"@ {
        "application/xml"@
    } else if extension == "vssscc"@ {
        "text/plain; charset=utf8"@
    } else if extension == "vst"@ {
        "application/vnd.visio"@
    } else if extension == "vstemplate"@ {
        "application/xml"@
    } else if extension == "vsto"@ {
        "application/x-ms-vsto"@
    } else if extension == "vsw"@ {
        "application/vnd.visio"@
    } else if extension == "vsx"@ {
        "application/vnd.visio"@
    } else if extension == "vtx"@ {
        "application/vnd.visio"@
    } else if extension == "wasm"@ {
        "application/wasm"@
    } else if extension == "wav"@ {
        "audio/wav"@
    } else if extension == "wave"@ {
        "audio/wav"@
    } else if extension == "wax"@ {
        "audio/x-ms-wax"@
    } else if extension == "wbk"@ {
        "application/msword"@
    } else if extension == "wbmp"@ {
        "image/vnd.wap.wbmp"@
    } else if extension == "wcm"@ {
        "application/vnd.ms-works"@
    } else if extension == "wdb"@ {
        "application/vnd.ms-works"@
    } else if extension == "wdp"@ {
        "image/vnd.ms-photo"@
    } else if extension == "webarchive"@ {
        "application/x-safari-webarchive"@
    } else if extension == "webtest"@ {
        "application/xml"@
    } else if extension == "wiq"@ {
        "application/xml"@
    } else if extension == "wiz"@ {
        "application/msword"@
    } else if extension == "wks"@ {
        "application/vnd.ms-works"@
    } else if extension == "wlmp"@ {
        "application/wlmoviemaker"@
    } else if extension == "wlpginstall"@ {
        "application/x-wlpg-detect"@
    } else if extension == "wlpginstall3"@ {
        "application/x-wlpg3-detect"@
    } else if extension == "wm"@ {
        "video/x-ms-wm"@
    } else if extension == "wma"@ {
        "audio/x-ms-wma"@
    } else if extension == "wmd"@ {
        "application/x-ms-wmd"@
    } else if extension == "wmf"@ {
        "application/x-msmetafile"@
    } else if extension == "wml"@ {
        "text/vnd.wap.wml; charset=utf8"@
    } else if extension == "wmlc"@ {
        "application/vnd.wap.wmlc"@
    } else if extension == "wmls"@ {
        "text/vnd.wap.wmlscript; charset=utf8"@
    } else if extension == "wmlsc"@ {
        "application/vnd.wap.wmlscriptc"@
    } else if extension == "wmp"@ {
        "video/x-ms-wmp"@
    } else if extension == "wmv"@ {
        "video/x-ms-wmv"@
    } else if extension == "wmx"@ {
        "video/x-ms-wmx"@
    } else if extension == "wmz"@ {
        "application/x-ms-wmz"@
    } else if extension == "woff"@ {
        "application/font-woff"@
    } else if extension == "woff2"@ {
        "application/font-woff2"@
    } else if extension == "wpl"@ {
        "application/vnd.ms-wpl"@
    } else if extension == "wps"@ {
        "application/vnd.ms-works"@
    } else if extension == "wri"@ {
        "application/x-mswrite"@
    } else if extension == "wrl"@ {
        "x-world/x-vrml"@
    } else if extension == "wrz"@ {
        "x-world/x-vrml"@
    } else if extension == "wsc"@ {
        "text/scriptlet; charset=utf8"@
    } else if extension == "wsdl"@ {
        "application/xml"@
    } else if extension == "wvx"@ {
        "video/x-ms-wvx"@
    } else if extension == "x"@ {
        "application/directx"@
    } else if extension == "xaf"@ {
        "x-world/x-vrml"@
    } else if extension == "xaml"@ {
        "application/xaml+xml"@
    } else if extension == "xap"@ {
        "application/x-silverlight-app"@
    } else if extension == "xbap"@ {
        "application/x-ms-xbap"@
    } else if extension == "xbm"@ {
        "image/x-xbitmap"@
    } else if extension == "xdr"@ {
        "text/plain; charset=utf8"@
    } else if extension == "xht"@ {
        "application/xhtml+xml"@
    } else if extension == "xhtml"@ {
        "application/xhtml+xml"@
    } else if extension == "xla"@ {
        "application/vnd.ms-excel"@
    } else if extension == "xlam"@ {
        "application/vnd.ms-excel.addin.macroEnabled.12"@
    } else if extension == "xlc"@ {
        "application/vnd.ms-excel"@
    } else if extension == "xld"@ {
        "application/vnd.ms-excel"@
    } else if extension == "xlk"@ {
        "application/vnd.ms-excel"@
    } else if extension == "xll"@ {
        "application/vnd.ms-excel"@
    } else if extension == "xlm"@ {
        "application/vnd.ms-excel"@
    } else if extension == "xls"@ {
        "application/vnd.ms-excel"@
    } else if extension == "xlsb"@ {
        "application/vnd.ms-excel.sheet.binary.macroEnabled.12"@
    } else if extension == "xlsm"@ {
        "application/vnd.ms-excel.sheet.macroEnabled.12"@
    } else if extension == "xlsx"@ {
        "application/vnd.openxmlformats-officedocument.spreadsheetml.sheet"@
    } else if extension == "xlt"@ {
        "application/vnd.ms-excel"@
    } else if extension == "xltm"@ {
        "application/vnd.ms-excel.template.macroEnabled.12"@
    } else if extension == "xltx"@ {
        "application/vnd.openxmlformats-officedocument.spreadsheetml.template"@
    } else if extension == "xlw"@ {
        "application/vnd.ms-excel"@
    } else if extension == "xml"@ {
        "application/xml"@
    } else if extension == "xmta"@ {
        "application/xml"@
    } else if extension == "xof"@ {
        "x-world/x-vrml"@
    } else if extension == "xoml"@ {
        "text/plain; charset=utf8"@
    } else if extension == "xpm"@ {
        "image/x-xpixmap"@
    } else if extension == "xps"@ {
        "application/vnd.ms-xpsdocument"@
    } else if extension == "xrm-ms"@ {
        "application/xml"@
    } else if extension == "xsc"@ {
        "application/xml"@
    } else if extension == "xsd"@ {
        "application/xml"@
    } else if extension == "xsf"@ {
        "application/xml"@
    } else if extension == "xsl"@ {
        "application/xml"@
    } else if extension == "xslt"@ {
        "application/xslt+xml"@
    } else if extension == "xsn"@ {
        "application/octet-stream"@
    } else if extension == "xss"@ {
        "application/xml"@
    } else if extension == "xtp"@ {
        "application/octet-stream"@
    } else if extension == "xwd"@ {
        "image/x-xwindowdump"@
    } else if extension == "z"@ {
        "application/x-compress"@
    } else if extension == "zip"@ {
        "application/zip"@
    } else {
        "application/octet-stream"@
    }
}

/// The MIME type for an optional extension: a file without one is
/// served as `application/octet-stream`.
pub open spec fn mime_type_for(extension: Option<Seq<char>>) -> Seq<char> {
    match extension {
        Some(e) => known_mime_type(e),
        None => "application/octet-stream"@,
    }
}

/// Returns the MIME type of a file based on its extension.
pub fn extension_to_mime_impl(extension: Option<&str>) -> (mime: &'static str)
    ensures
        mime@ == mime_type_for(
            match extension {
                Some(e) => Some(e@),
                None => None,
            },
        ),
{
    match extension {
        None => "application/octet-stream",
        Some(extension) => {
            if same_text(extension, "323") {
                "text/h323; charset=utf8"
            } else if same_text(extension, "3g2") {
                "video/3gpp2"
            } else if same_text(extension, "3gp") {
                "video/3gpp"
            } else if same_text(extension, "3gp2") {
                "video/3gpp2"
            } else if same_text(extension, "3gpp") {
                "video/3gpp"
            } else if same_text(extension, "7z") {
                "application/x-7z-compressed"
            } else if same_text(extension, "aa") {
                "audio/audible"
            } else if same_text(extension, "aac") {
                "audio/aac"
            } else if same_text(extension, "aaf") {
                "application/octet-stream"
            } else if same_text(extension, "aax") {
                "audio/vnd.audible.aax"
            } else if same_text(extension, "ac3") {
                "audio/ac3"
            } else if same_text(extension, "aca") {
                "application/octet-stream"
            } else if same_text(extension, "accda") {
                "application/msaccess.addin"
            } else if same_text(extension, "accdb") {
                "application/msaccess"
            } else if same_text(extension, "accdc") {
                "application/msaccess.cab"
            } else if same_text(extension, "accde") {
                "application/msaccess"
            } else if same_text(extension, "accdr") {
                "application/msaccess.runtime"
            } else if same_text(extension, "accdt") {
                "application/msaccess"
            } else if same_text(extension, "accdw") {
                "application/msaccess.webapplication"
            } else if same_text(extension, "accft") {
                "application/msaccess.ftemplate"
            } else if same_text(extension, "acx") {
                "application/internet-property-stream"
            } else if same_text(extension, "addin") {
                "application/xml"
            } else if same_text(extension, "ade") {
                "application/msaccess"
            } else if same_text(extension, "adobebridge") {
                "application/x-bridge-url"
            } else if same_text(extension, "adp") {
                "application/msaccess"
            } else if same_text(extension, "adt") {
                "audio/vnd.dlna.adts"
            } else if same_text(extension, "adts") {
                "audio/aac"
            } else if same_text(extension, "afm") {
                "application/octet-stream"
            } else if same_text(extension, "ai") {
                "application/postscript"
            } else if same_text(extension, "aif") {
                "audio/x-aiff"
            } else if same_text(extension, "aifc") {
                "audio/aiff"
            } else if same_text(extension, "aiff") {
                "audio/aiff"
            } else if same_text(extension, "air") {
                "application/vnd.adobe.air-application-installer-package+zip"
            } else if same_text(extension, "amc") {
                "application/x-mpeg"
            } else if same_text(extension, "application") {
                "application/x-ms-application"
            } else if same_text(extension, "art") {
                "image/x-jg"
            } else if same_text(extension, "asa") {
                "application/xml"
            } else if same_text(extension, "asax") {
                "application/xml"
            } else if same_text(extension, "ascx") {
                "application/xml"
            } else if same_text(extension, "asd") {
                "application/octet-stream"
            } else if same_text(extension, "asf") {
                "video/x-ms-asf"
            } else if same_text(extension, "ashx") {
                "application/xml"
            } else if same_text(extension, "asi") {
                "application/octet-stream"
            } else if same_text(extension, "asm") {
                "text/plain; charset=utf8"
            } else if same_text(extension, "asmx") {
                "application/xml"
            } else if same_text(extension, "aspx") {
                "application/xml"
            } else if same_text(extension, "asr") {
                "video/x-ms-asf"
            } else if same_text(extension, "asx") {
                "video/x-ms-asf"
            } else if same_text(extension, "atom") {
                "application/atom+xml"
            } else if same_text(extension, "au") {
                "audio/basic"
            } else if same_text(extension, "avi") {
                "video/x-msvideo"
            } else if same_text(extension, "axs") {
                "application/olescript"
            } else if same_text(extension, "bas") {
                "text/plain; charset=utf8"
            } else if same_text(extension, "bcpio") {
                "application/x-bcpio"
            } else if same_text(extension, "bin") {
                "application/octet-stream"
            } else if same_text(extension, "bmp") {
                "image/bmp"
            } else if same_text(extension, "c") {
                "text/plain; charset=utf8"
            } else if same_text(extension, "cab") {
                "application/octet-stream"
            } else if same_text(extension, "caf") {
                "audio/x-caf"
            } else if same_text(extension, "calx") {
                "application/vnd.ms-office.calx"
            } else if same_text(extension, "cat") {
                "application/vnd.ms-pki.seccat"
            } else if same_text(extension, "cc") {
                "text/plain; charset=utf8"
            } else if same_text(extension, "cd") {
                "text/plain; charset=utf8"
            } else if same_text(extension, "cdda") {
                "audio/aiff"
            } else if same_text(extension, "cdf") {
                "application/x-cdf"
            } else if same_text(extension, "cer") {
                "application/x-x509-ca-cert"
            } else if same_text(extension, "chm") {
                "application/octet-stream"
            } else if same_text(extension, "class") {
                "application/x-java-applet"
            } else if same_text(extension, "clp") {
                "application/x-msclip"
            } else if same_text(extension, "cmx") {
                "image/x-cmx"
            } else if same_text(extension, "cnf") {
                "text/plain; charset=utf8"
            } else if same_text(extension, "cod") {
                "image/cis-cod"
            } else if same_text(extension, "config") {
                "application/xml"
            } else if same_text(extension, "contact") {
                "text/x-ms-contact; charset=utf8"
            } else if same_text(extension, "coverage") {
                "application/xml"
            } else if same_text(extension, "cpio") {
                "application/x-cpio"
            } else if same_text(extension, "cpp") {
                "text/plain; charset=utf8"
            } else if same_text(extension, "crd") {
                "application/x-mscardfile"
            } else if same_text(extension, "crl") {
                "application/pkix-crl"
            } else if same_text(extension, "crt") {
                "application/x-x509-ca-cert"
            } else if same_text(extension, "cs") {
                "text/plain; charset=utf8"
            } else if same_text(extension, "csdproj") {
                "text/plain; charset=utf8"
            } else if same_text(extension, "csh") {
                "application/x-csh"
            } else if same_text(extension, "csproj") {
                "text/plain; charset=utf8"
            } else if same_text(extension, "css") {
                "text/css; charset=utf8"
            } else if same_text(extension, "csv") {
                "text/csv; charset=utf8"
            } else if same_text(extension, "cur") {
                "application/octet-stream"
            } else if same_text(extension, "cxx") {
                "text/plain; charset=utf8"
            } else if same_text(extension, "dat") {
                "application/octet-stream"
            } else if same_text(extension, "datasource") {
                "application/xml"
            } else if same_text(extension, "dbproj") {
                "text/plain; charset=utf8"
            } else if same_text(extension, "dcr") {
                "application/x-director"
            } else if same_text(extension, "def") {
                "text/plain; charset=utf8"
            } else if same_text(extension, "deploy") {
                "application/octet-stream"
            } else if same_text(extension, "der") {
                "application/x-x509-ca-cert"
            } else if same_text(extension, "dgml") {
                "application/xml"
            } else if same_text(extension, "dib") {
                "image/bmp"
            } else if same_text(extension, "dif") {
                "video/x-dv"
            } else if same_text(extension, "dir") {
                "application/x-director"
            } else if same_text(extension, "disco") {
                "application/xml"
            } else if same_text(extension, "dll") {
                "application/x-msdownload"
            } else if same_text(extension, "dll.config") {
                "application/xml"
            } else if same_text(extension, "dlm") {
                "text/dlm; charset=utf8"
            } else if same_text(extension, "doc") {
                "application/msword"
            } else if same_text(extension, "docm") {
                "application/vnd.ms-word.document.macroEnabled.12"
            } else if same_text(extension, "docx") {
                "application/vnd.openxmlformats-officedocument.wordprocessingml.document"
            } else if same_text(extension, "dot") {
                "application/msword"
            } else if same_text(extension, "dotm") {
                "application/vnd.ms-word.template.macroEnabled.12"
            } else if same_text(extension, "dotx") {
                "application/vnd.openxmlformats-officedocument.wordprocessingml.template"
            } else if same_text(extension, "dsp") {
                "application/octet-stream"
            } else if same_text(extension, "dsw") {
                "text/plain; charset=utf8"
            } else if same_text(extension, "dtd") {
                "application/xml"
            } else if same_text(extension, "dtsConfig") {
                "application/xml"
            } else if same_text(extension, "dv") {
                "video/x-dv"
            } else if same_text(extension, "dvi") {
                "application/x-dvi"
            } else if same_text(extension, "dwf") {
                "drawing/x-dwf"
            } else if same_text(extension, "dwp") {
                "application/octet-stream"
            } else if same_text(extension, "dxr") {
                "application/x-director"
            } else if same_text(extension, "eml") {
                "message/rfc822"
            } else if same_text(extension, "emz") {
                "application/octet-stream"
            } else if same_text(extension, "eot") {
                "application/vnd.ms-fontobject"
            } else if same_text(extension, "eps") {
                "application/postscript"
            } else if same_text(extension, "etl") {
                "application/etl"
            } else if same_text(extension, "etx") {
                "text/x-setext; charset=utf8"
            } else if same_text(extension, "evy") {
                "application/envoy"
            } else if same_text(extension, "exe") {
                "application/octet-stream"
            } else if same_text(extension, "exe.config") {
                "application/xml"
            } else if same_text(extension, "fdf") {
                "application/vnd.fdf"
            } else if same_text(extension, "fif") {
                "application/fractals"
            } else if same_text(extension, "filters") {
                "Application/xml"
            } else if same_text(extension, "fla") {
                "application/octet-stream"
            } else if same_text(extension, "flr") {
                "x-world/x-vrml"
            } else if same_text(extension, "flv") {
                "video/x-flv"
            } else if same_text(extension, "fsscript") {
                "application/fsharp-script"
            } else if same_text(extension, "fsx") {
                "application/fsharp-script"
            } else if same_text(extension, "generictest") {
                "application/xml"
            } else if same_text(extension, "gif") {
                "image/gif"
            } else if same_text(extension, "group") {
                "text/x-ms-group; charset=utf8"
            } else if same_text(extension, "gsm") {
                "audio/x-gsm"
            } else if same_text(extension, "gtar") {
                "application/x-gtar"
            } else if same_text(extension, "gz") {
                "application/x-gzip"
            } else if same_text(extension, "h") {
                "text/plain; charset=utf8"
            } else if same_text(extension, "hdf") {
                "application/x-hdf"
            } else if same_text(extension, "hdml") {
                "text/x-hdml; charset=utf8"
            } else if same_text(extension, "hhc") {
                "application/x-oleobject"
            } else if same_text(extension, "hhk") {
                "application/octet-stream"
            } else if same_text(extension, "hhp") {
                "application/octet-stream"
            } else if same_text(extension, "hlp") {
                "application/winhlp"
            } else if same_text(extension, "hpp") {
                "text/plain; charset=utf8"
            } else if same_text(extension, "hqx") {
                "application/mac-binhex40"
            } else if same_text(extension, "hta") {
                "application/hta"
            } else if same_text(extension, "htc") {
                "text/x-component; charset=utf8"
            } else if same_text(extension, "htm") {
                "text/html; charset=utf8"
            } else if same_text(extension, "html") {
                "text/html; charset=utf8"
            } else if same_text(extension, "htt") {
                "text/webviewhtml; charset=utf8"
            } else if same_text(extension, "hxa") {
                "application/xml"
            } else if same_text(extension, "hxc") {
                "application/xml"
            } else if same_text(extension, "hxd") {
                "application/octet-stream"
            } else if same_text(extension, "hxe") {
                "application/xml"
            } else if same_text(extension, "hxf") {
                "application/xml"
            } else if same_text(extension, "hxh") {
                "application/octet-stream"
            } else if same_text(extension, "hxi") {
                "application/octet-stream"
            } else if same_text(extension, "hxk") {
                "application/xml"
            } else if same_text(extension, "hxq") {
                "application/octet-stream"
            } else if same_text(extension, "hxr") {
                "application/octet-stream"
            } else if same_text(extension, "hxs") {
                "application/octet-stream"
            } else if same_text(extension, "hxt") {
                "text/html; charset=utf8"
            } else if same_text(extension, "hxv") {
                "application/xml"
            } else if same_text(extension, "hxw") {
                "application/octet-stream"
            } else if same_text(extension, "hxx") {
                "text/plain; charset=utf8"
            } else if same_text(extension, "i") {
                "text/plain; charset=utf8"
            } else if same_text(extension, "ico") {
                "image/x-icon"
            } else if same_text(extension, "ics") {
                "application/octet-stream"
            } else if same_text(extension, "idl") {
                "text/plain; charset=utf8"
            } else if same_text(extension, "ief") {
                "image/ief"
            } else if same_text(extension, "iii") {
                "application/x-iphone"
            } else if same_text(extension, "inc") {
                "text/plain; charset=utf8"
            } else if same_text(extension, "inf") {
                "application/octet-stream"
            } else if same_text(extension, "inl") {
                "text/plain; charset=utf8"
            } else if same_text(extension, "ins") {
                "application/x-internet-signup"
            } else if same_text(extension, "ipa") {
                "application/x-itunes-ipa"
            } else if same_text(extension, "ipg") {
                "application/x-itunes-ipg"
            } else if same_text(extension, "ipproj") {
                "text/plain; charset=utf8"
            } else if same_text(extension, "ipsw") {
                "application/x-itunes-ipsw"
            } else if same_text(extension, "iqy") {
                "text/x-ms-iqy; charset=utf8"
            } else if same_text(extension, "isp") {
                "application/x-internet-signup"
            } else if same_text(extension, "ite") {
                "application/x-itunes-ite"
            } else if same_text(extension, "itlp") {
                "application/x-itunes-itlp"
            } else if same_text(extension, "itms") {
                "application/x-itunes-itms"
            } else if same_text(extension, "itpc") {
                "application/x-itunes-itpc"
            } else if same_text(extension, "ivf") {
                "video/x-ivf"
            } else if same_text(extension, "jar") {
                "application/java-archive"
            } else if same_text(extension, "java") {
                "application/octet-stream"
            } else if same_text(extension, "jck") {
                "application/liquidmotion"
            } else if same_text(extension, "jcz") {
                "application/liquidmotion"
            } else if same_text(extension, "jfif") {
                "image/pjpeg"
            } else if same_text(extension, "jnlp") {
                "application/x-java-jnlp-file"
            } else if same_text(extension, "jpb") {
                "application/octet-stream"
            } else if same_text(extension, "jpe") {
                "image/jpeg"
            } else if same_text(extension, "jpeg") {
                "image/jpeg"
            } else if same_text(extension, "jpg") {
                "image/jpeg"
            } else if same_text(extension, "js") {
                "application/javascript"
            } else if same_text(extension, "json") {
                "application/json"
            } else if same_text(extension, "jsx") {
                "text/jscript; charset=utf8"
            } else if same_text(extension, "jsxbin") {
                "text/plain; charset=utf8"
            } else if same_text(extension, "latex") {
                "application/x-latex"
            } else if same_text(extension, "library-ms") {
                "application/windows-library+xml"
            } else if same_text(extension, "lit") {
                "application/x-ms-reader"
            } else if same_text(extension, "loadtest") {
                "application/xml"
            } else if same_text(extension, "lpk") {
                "application/octet-stream"
            } else if same_text(extension, "lsf") {
                "video/x-la-asf"
            } else if same_text(extension, "lst") {
                "text/plain; charset=utf8"
            } else if same_text(extension, "lsx") {
                "video/x-la-asf"
            } else if same_text(extension, "lzh") {
                "application/octet-stream"
            } else if same_text(extension, "m13") {
                "application/x-msmediaview"
            } else if same_text(extension, "m14") {
                "application/x-msmediaview"
            } else if same_text(extension, "m1v") {
                "video/mpeg"
            } else if same_text(extension, "m2t") {
                "video/vnd.dlna.mpeg-tts"
            } else if same_text(extension, "m2ts") {
                "video/vnd.dlna.mpeg-tts"
            } else if same_text(extension, "m2v") {
                "video/mpeg"
            } else if same_text(extension, "m3u") {
                "audio/x-mpegurl"
            } else if same_text(extension, "m3u8") {
                "audio/x-mpegurl"
            } else if same_text(extension, "m4a") {
                "audio/m4a"
            } else if same_text(extension, "m4b") {
                "audio/m4b"
            } else if same_text(extension, "m4p") {
                "audio/m4p"
            } else if same_text(extension, "m4r") {
                "audio/x-m4r"
            } else if same_text(extension, "m4v") {
                "video/x-m4v"
            } else if same_text(extension, "mac") {
                "image/x-macpaint"
            } else if same_text(extension, "mak") {
                "text/plain; charset=utf8"
            } else if same_text(extension, "man") {
                "application/x-troff-man"
            } else if same_text(extension, "manifest") {
                "application/x-ms-manifest"
            } else if same_text(extension, "map") {
                "text/plain; charset=utf8"
            } else if same_text(extension, "master") {
                "application/xml"
            } else if same_text(extension, "mda") {
                "application/msaccess"
            } else if same_text(extension, "mdb") {
                "application/x-msaccess"
            } else if same_text(extension, "mde") {
                "application/msaccess"
            } else if same_text(extension, "mdp") {
                "application/octet-stream"
            } else if same_text(extension, "me") {
                "application/x-troff-me"
            } else if same_text(extension, "mfp") {
                "application/x-shockwave-flash"
            } else if same_text(extension, "mht") {
                "message/rfc822"
            } else if same_text(extension, "mhtml") {
                "message/rfc822"
            } else if same_text(extension, "mid") {
                "audio/mid"
            } else if same_text(extension, "midi") {
                "audio/mid"
            } else if same_text(extension, "mix") {
                "application/octet-stream"
            } else if same_text(extension, "mjs") {
                "application/javascript"
            } else if same_text(extension, "mk") {
                "text/plain; charset=utf8"
            } else if same_text(extension, "mmf") {
                "application/x-smaf"
            } else if same_text(extension, "mno") {
                "application/xml"
            } else if same_text(extension, "mny") {
                "application/x-msmoney"
            } else if same_text(extension, "mod") {
                "video/mpeg"
            } else if same_text(extension, "mov") {
                "video/quicktime"
            } else if same_text(extension, "movie") {
                "video/x-sgi-movie"
            } else if same_text(extension, "mp2") {
                "video/mpeg"
            } else if same_text(extension, "mp2v") {
                "video/mpeg"
            } else if same_text(extension, "mp3") {
                "audio/mpeg"
            } else if same_text(extension, "mp4") {
                "video/mp4"
            } else if same_text(extension, "mp4v") {
                "video/mp4"
            } else if same_text(extension, "mpa") {
                "video/mpeg"
            } else if same_text(extension, "mpe") {
                "video/mpeg"
            } else if same_text(extension, "mpeg") {
                "video/mpeg"
            } else if same_text(extension, "mpf") {
                "application/vnd.ms-mediapackage"
            } else if same_text(extension, "mpg") {
                "video/mpeg"
            } else if same_text(extension, "mpp") {
                "application/vnd.ms-project"
            } else if same_text(extension, "mpv2") {
                "video/mpeg"
            } else if same_text(extension, "mqv") {
                "video/quicktime"
            } else if same_text(extension, "ms") {
                "application/x-troff-ms"
            } else if same_text(extension, "msi") {
                "application/octet-stream"
            } else if same_text(extension, "mso") {
                "application/octet-stream"
            } else if same_text(extension, "mts") {
                "video/vnd.dlna.mpeg-tts"
            } else if same_text(extension, "mtx") {
                "application/xml"
            } else if same_text(extension, "mvb") {
                "application/x-msmediaview"
            } else if same_text(extension, "mvc") {
                "application/x-miva-compiled"
            } else if same_text(extension, "mxp") {
                "application/x-mmxp"
            } else if same_text(extension, "nc") {
                "application/x-netcdf"
            } else if same_text(extension, "nsc") {
                "video/x-ms-asf"
            } else if same_text(extension, "nws") {
                "message/rfc822"
            } else if same_text(extension, "ocx") {
                "application/octet-stream"
            } else if same_text(extension, "oda") {
                "application/oda"
            } else if same_text(extension, "odc") {
                "text/x-ms-odc; charset=utf8"
            } else if same_text(extension, "odh") {
                "text/plain; charset=utf8"
            } else if same_text(extension, "odl") {
                "text/plain; charset=utf8"
            } else if same_text(extension, "odp") {
                "application/vnd.oasis.opendocument.presentation"
            } else if same_text(extension, "ods") {
                "application/oleobject"
            } else if same_text(extension, "odt") {
                "application/vnd.oasis.opendocument.text"
            } else if same_text(extension, "ogg") {
                "application/ogg"
            } else if same_text(extension, "one") {
                "application/onenote"
            } else if same_text(extension, "onea") {
                "application/onenote"
            } else if same_text(extension, "onepkg") {
                "application/onenote"
            } else if same_text(extension, "onetmp") {
                "application/onenote"
            } else if same_text(extension, "onetoc") {
                "application/onenote"
            } else if same_text(extension, "onetoc2") {
                "application/onenote"
            } else if same_text(extension, "orderedtest") {
                "application/xml"
            } else if same_text(extension, "osdx") {
                "application/opensearchdescription+xml"
            } else if same_text(extension, "otf") {
                "application/x-font-opentype"
            } else if same_text(extension, "p10") {
                "application/pkcs10"
            } else if same_text(extension, "p12") {
                "application/x-pkcs12"
            } else if same_text(extension, "p7b") {
                "application/x-pkcs7-certificates"
            } else if same_text(extension, "p7c") {
                "application/pkcs7-mime"
            } else if same_text(extension, "p7m") {
                "application/pkcs7-mime"
            } else if same_text(extension, "p7r") {
                "application/x-pkcs7-certreqresp"
            } else if same_text(extension, "p7s") {
                "application/pkcs7-signature"
            } else if same_text(extension, "pbm") {
                "image/x-portable-bitmap"
            } else if same_text(extension, "pcast") {
                "application/x-podcast"
            } else if same_text(extension, "pct") {
                "image/pict"
            } else if same_text(extension, "pcx") {
                "application/octet-stream"
            } else if same_text(extension, "pcz") {
                "application/octet-stream"
            } else if same_text(extension, "pdf") {
                "application/pdf"
            } else if same_text(extension, "pfb") {
                "application/octet-stream"
            } else if same_text(extension, "pfm") {
                "application/octet-stream"
            } else if same_text(extension, "pfx") {
                "application/x-pkcs12"
            } else if same_text(extension, "pgm") {
                "image/x-portable-graymap"
            } else if same_text(extension, "pic") {
                "image/pict"
            } else if same_text(extension, "pict") {
                "image/pict"
            } else if same_text(extension, "pkgdef") {
                "text/plain; charset=utf8"
            } else if same_text(extension, "pkgundef") {
                "text/plain; charset=utf8"
            } else if same_text(extension, "pko") {
                "application/vnd.ms-pki.pko"
            } else if same_text(extension, "pls") {
                "audio/scpls"
            } else if same_text(extension, "pma") {
                "application/x-perfmon"
            } else if same_text(extension, "pmc") {
                "application/x-perfmon"
            } else if same_text(extension, "pml") {
                "application/x-perfmon"
            } else if same_text(extension, "pmr") {
                "application/x-perfmon"
            } else if same_text(extension, "pmw") {
                "application/x-perfmon"
            } else if same_text(extension, "png") {
                "image/png"
            } else if same_text(extension, "pnm") {
                "image/x-portable-anymap"
            } else if same_text(extension, "pnt") {
                "image/x-macpaint"
            } else if same_text(extension, "pntg") {
                "image/x-macpaint"
            } else if same_text(extension, "pnz") {
                "image/png"
            } else if same_text(extension, "pot") {
                "application/vnd.ms-powerpoint"
            } else if same_text(extension, "potm") {
                "application/vnd.ms-powerpoint.template.macroEnabled.12"
            } else if same_text(extension, "potx") {
                "application/vnd.openxmlformats-officedocument.presentationml.template"
            } else if same_text(extension, "ppa") {
                "application/vnd.ms-powerpoint"
            } else if same_text(extension, "ppam") {
                "application/vnd.ms-powerpoint.addin.macroEnabled.12"
            } else if same_text(extension, "ppm") {
                "image/x-portable-pixmap"
            } else if same_text(extension, "pps") {
                "application/vnd.ms-powerpoint"
            } else if same_text(extension, "ppsm") {
                "application/vnd.ms-powerpoint.slideshow.macroEnabled.12"
            } else if same_text(extension, "ppsx") {
                "application/vnd.openxmlformats-officedocument.presentationml.slideshow"
            } else if same_text(extension, "ppt") {
                "application/vnd.ms-powerpoint"
            } else if same_text(extension, "pptm") {
                "application/vnd.ms-powerpoint.presentation.macroEnabled.12"
            } else if same_text(extension, "pptx") {
                "application/vnd.openxmlformats-officedocument.presentationml.presentation"
            } else if same_text(extension, "prf") {
                "application/pics-rules"
            } else if same_text(extension, "prm") {
                "application/octet-stream"
            } else if same_text(extension, "prx") {
                "application/octet-stream"
            } else if same_text(extension, "ps") {
                "application/postscript"
            } else if same_text(extension, "psc1") {
                "application/PowerShell"
            } else if same_text(extension, "psd") {
                "application/octet-stream"
            } else if same_text(extension, "psess") {
                "application/xml"
            } else if same_text(extension, "psm") {
                "application/octet-stream"
            } else if same_text(extension, "psp") {
                "application/octet-stream"
            } else if same_text(extension, "pub") {
                "application/x-mspublisher"
            } else if same_text(extension, "pwz") {
                "application/vnd.ms-powerpoint"
            } else if same_text(extension, "qht") {
                "text/x-html-insertion; charset=utf8"
            } else if same_text(extension, "qhtm") {
                "text/x-html-insertion; charset=utf8"
            } else if same_text(extension, "qt") {
                "video/quicktime"
            } else if same_text(extension, "qti") {
                "image/x-quicktime"
            } else if same_text(extension, "qtif") {
                "image/x-quicktime"
            } else if same_text(extension, "qtl") {
                "application/x-quicktimeplayer"
            } else if same_text(extension, "qxd") {
                "application/octet-stream"
            } else if same_text(extension, "ra") {
                "audio/x-pn-realaudio"
            } else if same_text(extension, "ram") {
                "audio/x-pn-realaudio"
            } else if same_text(extension, "rar") {
                "application/octet-stream"
            } else if same_text(extension, "ras") {
                "image/x-cmu-raster"
            } else if same_text(extension, "rat") {
                "application/rat-file"
            } else if same_text(extension, "rc") {
                "text/plain; charset=utf8"
            } else if same_text(extension, "rc2") {
                "text/plain; charset=utf8"
            } else if same_text(extension, "rct") {
                "text/plain; charset=utf8"
            } else if same_text(extension, "rdlc") {
                "application/xml"
            } else if same_text(extension, "resx") {
                "application/xml"
            } else if same_text(extension, "rf") {
                "image/vnd.rn-realflash"
            } else if same_text(extension, "rgb") {
                "image/x-rgb"
            } else if same_text(extension, "rgs") {
                "text/plain; charset=utf8"
            } else if same_text(extension, "rm") {
                "application/vnd.rn-realmedia"
            } else if same_text(extension, "rmi") {
                "audio/mid"
            } else if same_text(extension, "rmp") {
                "application/vnd.rn-rn_music_package"
            } else if same_text(extension, "roff") {
                "application/x-troff"
            } else if same_text(extension, "rpm") {
                "audio/x-pn-realaudio-plugin"
            } else if same_text(extension, "rqy") {
                "text/x-ms-rqy; charset=utf8"
            } else if same_text(extension, "rtf") {
                "application/rtf"
            } else if same_text(extension, "rtx") {
                "text/richtext; charset=utf8"
            } else if same_text(extension, "ruleset") {
                "application/xml"
            } else if same_text(extension, "s") {
                "text/plain; charset=utf8"
            } else if same_text(extension, "safariextz") {
                "application/x-safari-safariextz"
            } else if same_text(extension, "scd") {
                "application/x-msschedule"
            } else if same_text(extension, "sct") {
                "text/scriptlet; charset=utf8"
            } else if same_text(extension, "sd2") {
                "audio/x-sd2"
            } else if same_text(extension, "sdp") {
                "application/sdp"
            } else if same_text(extension, "sea") {
                "application/octet-stream"
            } else if same_text(extension, "searchConnector-ms") {
                "application/windows-search-connector+xml"
            } else if same_text(extension, "setpay") {
                "application/set-payment-initiation"
            } else if same_text(extension, "setreg") {
                "application/set-registration-initiation"
            } else if same_text(extension, "settings") {
                "application/xml"
            } else if same_text(extension, "sfnt") {
                "application/font-sfnt"
            } else if same_text(extension, "sgimb") {
                "application/x-sgimb"
            } else if same_text(extension, "sgml") {
                "text/sgml; charset=utf8"
            } else if same_text(extension, "sh") {
                "application/x-sh"
            } else if same_text(extension, "shar") {
                "application/x-shar"
            } else if same_text(extension, "shtml") {
                "text/html; charset=utf8"
            } else if same_text(extension, "sit") {
                "application/x-stuffit"
            } else if same_text(extension, "sitemap") {
                "application/xml"
            } else if same_text(extension, "skin") {
                "application/xml"
            } else if same_text(extension, "sldm") {
                "application/vnd.ms-powerpoint.slide.macroEnabled.12"
            } else if same_text(extension, "sldx") {
                "application/vnd.openxmlformats-officedocument.presentationml.slide"
            } else if same_text(extension, "slk") {
                "application/vnd.ms-excel"
            } else if same_text(extension, "sln") {
                "text/plain; charset=utf8"
            } else if same_text(extension, "slupkg-ms") {
                "application/x-ms-license"
            } else if same_text(extension, "smd") {
                "audio/x-smd"
            } else if same_text(extension, "smi") {
                "application/octet-stream"
            } else if same_text(extension, "smx") {
                "audio/x-smd"
            } else if same_text(extension, "smz") {
                "audio/x-smd"
            } else if same_text(extension, "snd") {
                "audio/basic"
            } else if same_text(extension, "snippet") {
                "application/xml"
            } else if same_text(extension, "snp") {
                "application/octet-stream"
            } else if same_text(extension, "sol") {
                "text/plain; charset=utf8"
            } else if same_text(extension, "sor") {
                "text/plain; charset=utf8"
            } else if same_text(extension, "spc") {
                "application/x-pkcs7-certificates"
            } else if same_text(extension, "spl") {
                "application/futuresplash"
            } else if same_text(extension, "src") {
                "application/x-wais-source"
            } else if same_text(extension, "srf") {
                "text/plain; charset=utf8"
            } else if same_text(extension, "ssisdeploymentmanifest") {
                "application/xml"
            } else if same_text(extension, "ssm") {
                "application/streamingmedia"
            } else if same_text(extension, "sst") {
                "application/vnd.ms-pki.certstore"
            } else if same_text(extension, "stl") {
                "application/vnd.ms-pki.stl"
            } else if same_text(extension, "sv4cpio") {
                "application/x-sv4cpio"
            } else if same_text(extension, "sv4crc") {
                "application/x-sv4crc"
            } else if same_text(extension, "svc") {
                "application/xml"
            } else if same_text(extension, "svg") {
                "image/svg+xml"
            } else if same_text(extension, "swf") {
                "application/x-shockwave-flash"
            } else if same_text(extension, "t") {
                "application/x-troff"
            } else if same_text(extension, "tar") {
                "application/x-tar"
            } else if same_text(extension, "tcl") {
                "application/x-tcl"
            } else if same_text(extension, "testrunconfig") {
                "application/xml"
            } else if same_text(extension, "testsettings") {
                "application/xml"
            } else if same_text(extension, "tex") {
                "application/x-tex"
            } else if same_text(extension, "texi") {
                "application/x-texinfo"
            } else if same_text(extension, "texinfo") {
                "application/x-texinfo"
            } else if same_text(extension, "tgz") {
                "application/x-compressed"
            } else if same_text(extension, "thmx") {
                "application/vnd.ms-officetheme"
            } else if same_text(extension, "thn") {
                "application/octet-stream"
            } else if same_text(extension, "tif") {
                "image/tiff"
            } else if same_text(extension, "tiff") {
                "image/tiff"
            } else if same_text(extension, "tlh") {
                "text/plain; charset=utf8"
            } else if same_text(extension, "tli") {
                "text/plain; charset=utf8"
            } else if same_text(extension, "toc") {
                "application/octet-stream"
            } else if same_text(extension, "tr") {
                "application/x-troff"
            } else if same_text(extension, "trm") {
                "application/x-msterminal"
            } else if same_text(extension, "trx") {
                "application/xml"
            } else if same_text(extension, "ts") {
                "video/vnd.dlna.mpeg-tts"
            } else if same_text(extension, "tsv") {
                "text/tab-separated-values; charset=utf8"
            } else if same_text(extension, "ttf") {
                "application/x-font-ttf"
            } else if same_text(extension, "tts") {
                "video/vnd.dlna.mpeg-tts"
            } else if same_text(extension, "txt") {
                "text/plain; charset=utf8"
            } else if same_text(extension, "u32") {
                "application/octet-stream"
            } else if same_text(extension, "uls") {
                "text/iuls; charset=utf8"
            } else if same_text(extension, "user") {
                "text/plain; charset=utf8"
            } else if same_text(extension, "ustar") {
                "application/x-ustar"
            } else if same_text(extension, "vb") {
                "text/plain; charset=utf8"
            } else if same_text(extension, "vbdproj") {
                "text/plain; charset=utf8"
            } else if same_text(extension, "vbk") {
                "video/mpeg"
            } else if same_text(extension, "vbproj") {
                "text/plain; charset=utf8"
            } else if same_text(extension, "vbs") {
                "text/vbscript; charset=utf8"
            } else if same_text(extension, "vcf") {
                "text/x-vcard; charset=utf8"
            } else if same_text(extension, "vcproj") {
                "Application/xml"
            } else if same_text(extension, "vcs") {
                "text/plain; charset=utf8"
            } else if same_text(extension, "vcxproj") {
                "Application/xml"
            } else if same_text(extension, "vddproj") {
                "text/plain; charset=utf8"
            } else if same_text(extension, "vdp") {
                "text/plain; charset=utf8"
            } else if same_text(extension, "vdproj") {
                "text/plain; charset=utf8"
            } else if same_text(extension, "vdx") {
                "application/vnd.ms-visio.viewer"
            } else if same_text(extension, "vml") {
                "application/xml"
            } else if same_text(extension, "vscontent") {
                "application/xml"
            } else if same_text(extension, "vsct") {
                "application/xml"
            } else if same_text(extension, "vsd") {
                "application/vnd.visio"
            } else if same_text(extension, "vsi") {
                "application/ms-vsi"
            } else if same_text(extension, "vsix") {
                "application/vsix"
            } else if same_text(extension, "vsixlangpack") {
                "application/xml"
            } else if same_text(extension, "vsixmanifest") {
                "application/xml"
            } else if same_text(extension, "vsmdi") {
                "application/xml"
            } else if same_text(extension, "vspscc") {
                "text/plain; charset=utf8"
            } else if same_text(extension, "vss") {
                "application/vnd.visio"
            } else if same_text(extension, "vsscc") {
                "text/plain; charset=utf8"
            } else if same_text(extension, "vssettings") {
                "application/xml"
            } else if same_text(extension, "vssscc") {
                "text/plain; charset=utf8"
            } else if same_text(extension, "vst") {
                "application/vnd.visio"
            } else if same_text(extension, "vstemplate") {
                "application/xml"
            } else if same_text(extension, "vsto") {
                "application/x-ms-vsto"
            } else if same_text(extension, "vsw") {
                "application/vnd.visio"
            } else if same_text(extension, "vsx") {
                "application/vnd.visio"
            } else if same_text(extension, "vtx") {
                "application/vnd.visio"
            } else if same_text(extension, "wasm") {
                "application/wasm"
            } else if same_text(extension, "wav") {
                "audio/wav"
            } else if same_text(extension, "wave") {
                "audio/wav"
            } else if same_text(extension, "wax") {
                "audio/x-ms-wax"
            } else if same_text(extension, "wbk") {
                "application/msword"
            } else if same_text(extension, "wbmp") {
                "image/vnd.wap.wbmp"
            } else if same_text(extension, "wcm") {
                "application/vnd.ms-works"
            } else if same_text(extension, "wdb") {
                "application/vnd.ms-works"
            } else if same_text(extension, "wdp") {
                "image/vnd.ms-photo"
            } else if same_text(extension, "webarchive") {
                "application/x-safari-webarchive"
            } else if same_text(extension, "webtest") {
                "application/xml"
            } else if same_text(extension, "wiq") {
                "application/xml"
            } else if same_text(extension, "wiz") {
                "application/msword"
            } else if same_text(extension, "wks") {
                "application/vnd.ms-works"
            } else if same_text(extension, "wlmp") {
                "application/wlmoviemaker"
            } else if same_text(extension, "wlpginstall") {
                "application/x-wlpg-detect"
            } else if same_text(extension, "wlpginstall3") {
                "application/x-wlpg3-detect"
            } else if same_text(extension, "wm") {
                "video/x-ms-wm"
            } else if same_text(extension, "wma") {
                "audio/x-ms-wma"
            } else if same_text(extension, "wmd") {
                "application/x-ms-wmd"
            } else if same_text(extension, "wmf") {
                "application/x-msmetafile"
            } else if same_text(extension, "wml") {
                "text/vnd.wap.wml; charset=utf8"
            } else if same_text(extension, "wmlc") {
                "application/vnd.wap.wmlc"
            } else if same_text(extension, "wmls") {
                "text/vnd.wap.wmlscript; charset=utf8"
            } else if same_text(extension, "wmlsc") {
                "application/vnd.wap.wmlscriptc"
            } else if same_text(extension, "wmp") {
                "video/x-ms-wmp"
            } else if same_text(extension, "wmv") {
                "video/x-ms-wmv"
            } else if same_text(extension, "wmx") {
                "video/x-ms-wmx"
            } else if same_text(extension, "wmz") {
                "application/x-ms-wmz"
            } else if same_text(extension, "woff") {
                "application/font-woff"
            } else if same_text(extension, "woff2") {
                "application/font-woff2"
            } else if same_text(extension, "wpl") {
                "application/vnd.ms-wpl"
            } else if same_text(extension, "wps") {
                "application/vnd.ms-works"
            } else if same_text(extension, "wri") {
                "application/x-mswrite"
            } else if same_text(extension, "wrl") {
                "x-world/x-vrml"
            } else if same_text(extension, "wrz") {
                "x-world/x-vrml"
            } else if same_text(extension, "wsc") {
                "text/scriptlet; charset=utf8"
            } else if same_text(extension, "wsdl") {
                "application/xml"
            } else if same_text(extension, "wvx") {
                "video/x-ms-wvx"
            } else if same_text(extension, "x") {
                "application/directx"
            } else if same_text(extension, "xaf") {
                "x-world/x-vrml"
            } else if same_text(extension, "xaml") {
                "application/xaml+xml"
            } else if same_text(extension, "xap") {
                "application/x-silverlight-app"
            } else if same_text(extension, "xbap") {
                "application/x-ms-xbap"
            } else if same_text(extension, "xbm") {
                "image/x-xbitmap"
            } else if same_text(extension, "xdr") {
                "text/plain; charset=utf8"
            } else if same_text(extension, "xht") {
                "application/xhtml+xml"
            } else if same_text(extension, "xhtml") {
                "application/xhtml+xml"
            } else if same_text(extension, "xla") {
                "application/vnd.ms-excel"
            } else if same_text(extension, "xlam") {
                "application/vnd.ms-excel.addin.macroEnabled.12"
            } else if same_text(extension, "xlc") {
                "application/vnd.ms-excel"
            } else if same_text(extension, "xld") {
                "application/vnd.ms-excel"
            } else if same_text(extension, "xlk") {
                "application/vnd.ms-excel"
            } else if same_text(extension, "xll") {
                "application/vnd.ms-excel"
            } else if same_text(extension, "xlm") {
                "application/vnd.ms-excel"
            } else if same_text(extension, "xls") {
                "application/vnd.ms-excel"
            } else if same_text(extension, "xlsb") {
                "application/vnd.ms-excel.sheet.binary.macroEnabled.12"
            } else if same_text(extension, "xlsm") {
                "application/vnd.ms-excel.sheet.macroEnabled.12"
            } else if same_text(extension, "xlsx") {
                "application/vnd.openxmlformats-officedocument.spreadsheetml.sheet"
            } else if same_text(extension, "xlt") {
                "application/vnd.ms-excel"
            } else if same_text(extension, "xltm") {
                "application/vnd.ms-excel.template.macroEnabled.12"
            } else if same_text(extension, "xltx") {
                "application/vnd.openxmlformats-officedocument.spreadsheetml.template"
            } else if same_text(extension, "xlw") {
                "application/vnd.ms-excel"
            } else if same_text(extension, "xml") {
                "application/xml"
            } else if same_text(extension, "xmta") {
                "application/xml"
            } else if same_text(extension, "xof") {
                "x-world/x-vrml"
            } else if same_text(extension, "xoml") {
                "text/plain; charset=utf8"
            } else if same_text(extension, "xpm") {
                "image/x-xpixmap"
            } else if same_text(extension, "xps") {
                "application/vnd.ms-xpsdocument"
            } else if same_text(extension, "xrm-ms") {
                "application/xml"
            } else if same_text(extension, "xsc") {
                "application/xml"
            } else if same_text(extension, "xsd") {
                "application/xml"
            } else if same_text(extension, "xsf") {
                "application/xml"
            } else if same_text(extension, "xsl") {
                "application/xml"
            } else if same_text(extension, "xslt") {
                "application/xslt+xml"
            } else if same_text(extension, "xsn") {
                "application/octet-stream"
            } else if same_text(extension, "xss") {
                "application/xml"
            } else if same_text(extension, "xtp") {
                "application/octet-stream"
            } else if same_text(extension, "xwd") {
                "image/x-xwindowdump"
            } else if same_text(extension, "z") {
                "application/x-compress"
            } else if same_text(extension, "zip") {
                "application/zip"
            } else {
                "application/octet-stream"
            }
        },
    }
}


/// A MIME type can be put as it is into a `Content-type` header line: it is
/// non-empty ASCII, holds a `/`, and holds no line break.
pub open spec fn fits_header_line(mime: Seq<char>) -> bool {
    &&& mime.len() > 0
    &&& is_ascii_chars(mime)
    &&& mime.contains('/')
    &&& !mime.contains('\r')
    &&& !mime.contains('\n')
}

/// Every MIME type the server announces fits a header line.
#[verifier::rlimit(100)]
pub proof fn lemma_mime_fits_header_line(extension: Option<Seq<char>>)
    ensures
        fits_header_line(mime_type_for(extension)),
{
    assert(fits_header_line("Application/xml"@)) by {
        reveal_strlit("Application/xml");
        assert("Application/xml"@[11] == '/');
    }
    assert(fits_header_line("application/PowerShell"@)) by {
        reveal_strlit("application/PowerShell");
        assert("application/PowerShell"@[11] == '/');
    }
    assert(fits_header_line("application/atom+xml"@)) by {
        reveal_strlit("application/atom+xml");
        assert("application/atom+xml"@[11] == '/');
    }
    assert(fits_header_line("application/directx"@)) by {
        reveal_strlit("application/directx");
        assert("application/directx"@[11] == '/');
    }
    assert(fits_header_line("application/envoy"@)) by {
        reveal_strlit("application/envoy");
        assert("application/envoy"@[11] == '/');
    }
    assert(fits_header_line("application/etl"@)) by {
        reveal_strlit("application/etl");
        assert("application/etl"@[11] == '/');
    }
    assert(fits_header_line("application/font-sfnt"@)) by {
        reveal_strlit("application/font-sfnt");
        assert("application/font-sfnt"@[11] == '/');
    }
    assert(fits_header_line("application/font-woff"@)) by {
        reveal_strlit("application/font-woff");
        assert("application/font-woff"@[11] == '/');
    }
    assert(fits_header_line("application/font-woff2"@)) by {
        reveal_strlit("application/font-woff2");
        assert("application/font-woff2"@[11] == '/');
    }
    assert(fits_header_line("application/fractals"@)) by {
        reveal_strlit("application/fractals");
        assert("application/fractals"@[11] == '/');
    }
    assert(fits_header_line("application/fsharp-script"@)) by {
        reveal_strlit("application/fsharp-script");
        assert("application/fsharp-script"@[11] == '/');
    }
    assert(fits_header_line("application/futuresplash"@)) by {
        reveal_strlit("application/futuresplash");
        assert("application/futuresplash"@[11] == '/');
    }
    assert(fits_header_line("application/hta"@)) by {
        reveal_strlit("application/hta");
        assert("application/hta"@[11] == '/');
    }
    assert(fits_header_line("application/internet-property-stream"@)) by {
        reveal_strlit("application/internet-property-stream");
        assert("application/internet-property-stream"@[11] == '/');
    }
    assert(fits_header_line("application/java-archive"@)) by {
        reveal_strlit("application/java-archive");
        assert("application/java-archive"@[11] == '/');
    }
    assert(fits_header_line("application/javascript"@)) by {
        reveal_strlit("application/javascript");
        assert("application/javascript"@[11] == '/');
    }
    assert(fits_header_line("application/json"@)) by {
        reveal_strlit("application/json");
        assert("application/json"@[11] == '/');
    }
    assert(fits_header_line("application/liquidmotion"@)) by {
        reveal_strlit("application/liquidmotion");
        assert("application/liquidmotion"@[11] == '/');
    }
    assert(fits_header_line("application/mac-binhex40"@)) by {
        reveal_strlit("application/mac-binhex40");
        assert("application/mac-binhex40"@[11] == '/');
    }
    assert(fits_header_line("application/ms-vsi"@)) by {
        reveal_strlit("application/ms-vsi");
        assert("application/ms-vsi"@[11] == '/');
    }
    assert(fits_header_line("application/msaccess"@)) by {
        reveal_strlit("application/msaccess");
        assert("application/msaccess"@[11] == '/');
    }
    assert(fits_header_line("application/msaccess.addin"@)) by {
        reveal_strlit("application/msaccess.addin");
        assert("application/msaccess.addin"@[11] == '/');
    }
    assert(fits_header_line("application/msaccess.cab"@)) by {
        reveal_strlit("application/msaccess.cab");
        assert("application/msaccess.cab"@[11] == '/');
    }
    assert(fits_header_line("application/msaccess.ftemplate"@)) by {
        reveal_strlit("application/msaccess.ftemplate");
        assert("application/msaccess.ftemplate"@[11] == '/');
    }
    assert(fits_header_line("application/msaccess.runtime"@)) by {
        reveal_strlit("application/msaccess.runtime");
        assert("application/msaccess.runtime"@[11] == '/');
    }
    assert(fits_header_line("application/msaccess.webapplication"@)) by {
        reveal_strlit("application/msaccess.webapplication");
        assert("application/msaccess.webapplication"@[11] == '/');
    }
    assert(fits_header_line("application/msword"@)) by {
        reveal_strlit("application/msword");
        assert("application/msword"@[11] == '/');
    }
    assert(fits_header_line("application/octet-stream"@)) by {
        reveal_strlit("application/octet-stream");
        assert("application/octet-stream"@[11] == '/');
    }
    assert(fits_header_line("application/oda"@)) by {
        reveal_strlit("application/oda");
        assert("application/oda"@[11] == '/');
    }
    assert(fits_header_line("application/ogg"@)) by {
        reveal_strlit("application/ogg");
        assert("application/ogg"@[11] == '/');
    }
    assert(fits_header_line("application/oleobject"@)) by {
        reveal_strlit("application/oleobject");
        assert("application/oleobject"@[11] == '/');
    }
    assert(fits_header_line("application/olescript"@)) by {
        reveal_strlit("application/olescript");
        assert("application/olescript"@[11] == '/');
    }
    assert(fits_header_line("application/onenote"@)) by {
        reveal_strlit("application/onenote");
        assert("application/onenote"@[11] == '/');
    }
    assert(fits_header_line("application/opensearchdescription+xml"@)) by {
        reveal_strlit("application/opensearchdescription+xml");
        assert("application/opensearchdescription+xml"@[11] == '/');
    }
    assert(fits_header_line("application/pdf"@)) by {
        reveal_strlit("application/pdf");
        assert("application/pdf"@[11] == '/');
    }
    assert(fits_header_line("application/pics-rules"@)) by {
        reveal_strlit("application/pics-rules");
        assert("application/pics-rules"@[11] == '/');
    }
    assert(fits_header_line("application/pkcs10"@)) by {
        reveal_strlit("application/pkcs10");
        assert("application/pkcs10"@[11] == '/');
    }
    assert(fits_header_line("application/pkcs7-mime"@)) by {
        reveal_strlit("application/pkcs7-mime");
        assert("application/pkcs7-mime"@[11] == '/');
    }
    assert(fits_header_line("application/pkcs7-signature"@)) by {
        reveal_strlit("application/pkcs7-signature");
        assert("application/pkcs7-signature"@[11] == '/');
    }
    assert(fits_header_line("application/pkix-crl"@)) by {
        reveal_strlit("application/pkix-crl");
        assert("application/pkix-crl"@[11] == '/');
    }
    assert(fits_header_line("application/postscript"@)) by {
        reveal_strlit("application/postscript");
        assert("application/postscript"@[11] == '/');
    }
    assert(fits_header_line("application/rat-file"@)) by {
        reveal_strlit("application/rat-file");
        assert("application/rat-file"@[11] == '/');
    }
    assert(fits_header_line("application/rtf"@)) by {
        reveal_strlit("application/rtf");
        assert("application/rtf"@[11] == '/');
    }
    assert(fits_header_line("application/sdp"@)) by {
        reveal_strlit("application/sdp");
        assert("application/sdp"@[11] == '/');
    }
    assert(fits_header_line("application/set-payment-initiation"@)) by {
        reveal_strlit("application/set-payment-initiation");
        assert("application/set-payment-initiation"@[11] == '/');
    }
    assert(fits_header_line("application/set-registration-initiation"@)) by {
        reveal_strlit("application/set-registration-initiation");
        assert("application/set-registration-initiation"@[11] == '/');
    }
    assert(fits_header_line("application/streamingmedia"@)) by {
        reveal_strlit("application/streamingmedia");
        assert("application/streamingmedia"@[11] == '/');
    }
    assert(fits_header_line("application/vnd.adobe.air-application-installer-package+zip"@)) by {
        reveal_strlit("application/vnd.adobe.air-application-installer-package+zip");
        assert("application/vnd.adobe.air-application-installer-package+zip"@[11] == '/');
    }
    assert(fits_header_line("application/vnd.fdf"@)) by {
        reveal_strlit("application/vnd.fdf");
        assert("application/vnd.fdf"@[11] == '/');
    }
    assert(fits_header_line("application/vnd.ms-excel"@)) by {
        reveal_strlit("application/vnd.ms-excel");
        assert("application/vnd.ms-excel"@[11] == '/');
    }
    assert(fits_header_line("application/vnd.ms-excel.addin.macroEnabled.12"@)) by {
        reveal_strlit("application/vnd.ms-excel.addin.macroEnabled.12");
        assert("application/vnd.ms-excel.addin.macroEnabled.12"@[11] == '/');
    }
    assert(fits_header_line("application/vnd.ms-excel.sheet.binary.macroEnabled.12"@)) by {
        reveal_strlit("application/vnd.ms-excel.sheet.binary.macroEnabled.12");
        assert("application/vnd.ms-excel.sheet.binary.macroEnabled.12"@[11] == '/');
    }
    assert(fits_header_line("application/vnd.ms-excel.sheet.macroEnabled.12"@)) by {
        reveal_strlit("application/vnd.ms-excel.sheet.macroEnabled.12");
        assert("application/vnd.ms-excel.sheet.macroEnabled.12"@[11] == '/');
    }
    assert(fits_header_line("application/vnd.ms-excel.template.macroEnabled.12"@)) by {
        reveal_strlit("application/vnd.ms-excel.template.macroEnabled.12");
        assert("application/vnd.ms-excel.template.macroEnabled.12"@[11] == '/');
    }
    assert(fits_header_line("application/vnd.ms-fontobject"@)) by {
        reveal_strlit("application/vnd.ms-fontobject");
        assert("application/vnd.ms-fontobject"@[11] == '/');
    }
    assert(fits_header_line("application/vnd.ms-mediapackage"@)) by {
        reveal_strlit("application/vnd.ms-mediapackage");
        assert("application/vnd.ms-mediapackage"@[11] == '/');
    }
    assert(fits_header_line("application/vnd.ms-office.calx"@)) by {
        reveal_strlit("application/vnd.ms-office.calx");
        assert("application/vnd.ms-office.calx"@[11] == '/');
    }
    assert(fits_header_line("application/vnd.ms-officetheme"@)) by {
        reveal_strlit("application/vnd.ms-officetheme");
        assert("application/vnd.ms-officetheme"@[11] == '/');
    }
    assert(fits_header_line("application/vnd.ms-pki.certstore"@)) by {
        reveal_strlit("application/vnd.ms-pki.certstore");
        assert("application/vnd.ms-pki.certstore"@[11] == '/');
    }
    assert(fits_header_line("application/vnd.ms-pki.pko"@)) by {
        reveal_strlit("application/vnd.ms-pki.pko");
        assert("application/vnd.ms-pki.pko"@[11] == '/');
    }
    assert(fits_header_line("application/vnd.ms-pki.seccat"@)) by {
        reveal_strlit("application/vnd.ms-pki.seccat");
        assert("application/vnd.ms-pki.seccat"@[11] == '/');
    }
    assert(fits_header_line("application/vnd.ms-pki.stl"@)) by {
        reveal_strlit("application/vnd.ms-pki.stl");
        assert("application/vnd.ms-pki.stl"@[11] == '/');
    }
    assert(fits_header_line("application/vnd.ms-powerpoint"@)) by {
        reveal_strlit("application/vnd.ms-powerpoint");
        assert("application/vnd.ms-powerpoint"@[11] == '/');
    }
    assert(fits_header_line("application/vnd.ms-powerpoint.addin.macroEnabled.12"@)) by {
        reveal_strlit("application/vnd.ms-powerpoint.addin.macroEnabled.12");
        assert("application/vnd.ms-powerpoint.addin.macroEnabled.12"@[11] == '/');
    }
    assert(fits_header_line("application/vnd.ms-powerpoint.presentation.macroEnabled.12"@)) by {
        reveal_strlit("application/vnd.ms-powerpoint.presentation.macroEnabled.12");
        assert("application/vnd.ms-powerpoint.presentation.macroEnabled.12"@[11] == '/');
    }
    assert(fits_header_line("application/vnd.ms-powerpoint.slide.macroEnabled.12"@)) by {
        reveal_strlit("application/vnd.ms-powerpoint.slide.macroEnabled.12");
        assert("application/vnd.ms-powerpoint.slide.macroEnabled.12"@[11] == '/');
    }
    assert(fits_header_line("application/vnd.ms-powerpoint.slideshow.macroEnabled.12"@)) by {
        reveal_strlit("application/vnd.ms-powerpoint.slideshow.macroEnabled.12");
        assert("application/vnd.ms-powerpoint.slideshow.macroEnabled.12"@[11] == '/');
    }
    assert(fits_header_line("application/vnd.ms-powerpoint.template.macroEnabled.12"@)) by {
        reveal_strlit("application/vnd.ms-powerpoint.template.macroEnabled.12");
        assert("application/vnd.ms-powerpoint.template.macroEnabled.12"@[11] == '/');
    }
    assert(fits_header_line("application/vnd.ms-project"@)) by {
        reveal_strlit("application/vnd.ms-project");
        assert("application/vnd.ms-project"@[11] == '/');
    }
    assert(fits_header_line("application/vnd.ms-visio.viewer"@)) by {
        reveal_strlit("application/vnd.ms-visio.viewer");
        assert("application/vnd.ms-visio.viewer"@[11] == '/');
    }
    assert(fits_header_line("application/vnd.ms-word.document.macroEnabled.12"@)) by {
        reveal_strlit("application/vnd.ms-word.document.macroEnabled.12");
        assert("application/vnd.ms-word.document.macroEnabled.12"@[11] == '/');
    }
    assert(fits_header_line("application/vnd.ms-word.template.macroEnabled.12"@)) by {
        reveal_strlit("application/vnd.ms-word.template.macroEnabled.12");
        assert("application/vnd.ms-word.template.macroEnabled.12"@[11] == '/');
    }
    assert(fits_header_line("application/vnd.ms-works"@)) by {
        reveal_strlit("application/vnd.ms-works");
        assert("application/vnd.ms-works"@[11] == '/');
    }
    assert(fits_header_line("application/vnd.ms-wpl"@)) by {
        reveal_strlit("application/vnd.ms-wpl");
        assert("application/vnd.ms-wpl"@[11] == '/');
    }
    assert(fits_header_line("application/vnd.ms-xpsdocument"@)) by {
        reveal_strlit("application/vnd.ms-xpsdocument");
        assert("application/vnd.ms-xpsdocument"@[11] == '/');
    }
    assert(fits_header_line("application/vnd.oasis.opendocument.presentation"@)) by {
        reveal_strlit("application/vnd.oasis.opendocument.presentation");
        assert("application/vnd.oasis.opendocument.presentation"@[11] == '/');
    }
    assert(fits_header_line("application/vnd.oasis.opendocument.text"@)) by {
        reveal_strlit("application/vnd.oasis.opendocument.text");
        assert("application/vnd.oasis.opendocument.text"@[11] == '/');
    }
    assert(fits_header_line("application/vnd.openxmlformats-officedocument.presentationml.presentation"@)) by {
        reveal_strlit("application/vnd.openxmlformats-officedocument.presentationml.presentation");
        assert("application/vnd.openxmlformats-officedocument.presentationml.presentation"@[11] == '/');
    }
    assert(fits_header_line("application/vnd.openxmlformats-officedocument.presentationml.slide"@)) by {
        reveal_strlit("application/vnd.openxmlformats-officedocument.presentationml.slide");
        assert("application/vnd.openxmlformats-officedocument.presentationml.slide"@[11] == '/');
    }
    assert(fits_header_line("application/vnd.openxmlformats-officedocument.presentationml.slideshow"@)) by {
        reveal_strlit("application/vnd.openxmlformats-officedocument.presentationml.slideshow");
        assert("application/vnd.openxmlformats-officedocument.presentationml.slideshow"@[11] == '/');
    }
    assert(fits_header_line("application/vnd.openxmlformats-officedocument.presentationml.template"@)) by {
        reveal_strlit("application/vnd.openxmlformats-officedocument.presentationml.template");
        assert("application/vnd.openxmlformats-officedocument.presentationml.template"@[11] == '/');
    }
    assert(fits_header_line("application/vnd.openxmlformats-officedocument.spreadsheetml.sheet"@)) by {
        reveal_strlit("application/vnd.openxmlformats-officedocument.spreadsheetml.sheet");
        assert("application/vnd.openxmlformats-officedocument.spreadsheetml.sheet"@[11] == '/');
    }
    assert(fits_header_line("application/vnd.openxmlformats-officedocument.spreadsheetml.template"@)) by {
        reveal_strlit("application/vnd.openxmlformats-officedocument.spreadsheetml.template");
        assert("application/vnd.openxmlformats-officedocument.spreadsheetml.template"@[11] == '/');
    }
    assert(fits_header_line("application/vnd.openxmlformats-officedocument.wordprocessingml.document"@)) by {
        reveal_strlit("application/vnd.openxmlformats-officedocument.wordprocessingml.document");
        assert("application/vnd.openxmlformats-officedocument.wordprocessingml.document"@[11] == '/');
    }
    assert(fits_header_line("application/vnd.openxmlformats-officedocument.wordprocessingml.template"@)) by {
        reveal_strlit("application/vnd.openxmlformats-officedocument.wordprocessingml.template");
        assert("application/vnd.openxmlformats-officedocument.wordprocessingml.template"@[11] == '/');
    }
    assert(fits_header_line("application/vnd.rn-realmedia"@)) by {
        reveal_strlit("application/vnd.rn-realmedia");
        assert("application/vnd.rn-realmedia"@[11] == '/');
    }
    assert(fits_header_line("application/vnd.rn-rn_music_package"@)) by {
        reveal_strlit("application/vnd.rn-rn_music_package");
        assert("application/vnd.rn-rn_music_package"@[11] == '/');
    }
    assert(fits_header_line("application/vnd.visio"@)) by {
        reveal_strlit("application/vnd.visio");
        assert("application/vnd.visio"@[11] == '/');
    }
    assert(fits_header_line("application/vnd.wap.wmlc"@)) by {
        reveal_strlit("application/vnd.wap.wmlc");
        assert("application/vnd.wap.wmlc"@[11] == '/');
    }
    assert(fits_header_line("application/vnd.wap.wmlscriptc"@)) by {
        reveal_strlit("application/vnd.wap.wmlscriptc");
        assert("application/vnd.wap.wmlscriptc"@[11] == '/');
    }
    assert(fits_header_line("application/vsix"@)) by {
        reveal_strlit("application/vsix");
        assert("application/vsix"@[11] == '/');
    }
    assert(fits_header_line("application/wasm"@)) by {
        reveal_strlit("application/wasm");
        assert("application/wasm"@[11] == '/');
    }
    assert(fits_header_line("application/windows-library+xml"@)) by {
        reveal_strlit("application/windows-library+xml");
        assert("application/windows-library+xml"@[11] == '/');
    }
    assert(fits_header_line("application/windows-search-connector+xml"@)) by {
        reveal_strlit("application/windows-search-connector+xml");
        assert("application/windows-search-connector+xml"@[11] == '/');
    }
    assert(fits_header_line("application/winhlp"@)) by {
        reveal_strlit("application/winhlp");
        assert("application/winhlp"@[11] == '/');
    }
    assert(fits_header_line("application/wlmoviemaker"@)) by {
        reveal_strlit("application/wlmoviemaker");
        assert("application/wlmoviemaker"@[11] == '/');
    }
    assert(fits_header_line("application/x-7z-compressed"@)) by {
        reveal_strlit("application/x-7z-compressed");
        assert("application/x-7z-compressed"@[11] == '/');
    }
    assert(fits_header_line("application/x-bcpio"@)) by {
        reveal_strlit("application/x-bcpio");
        assert("application/x-bcpio"@[11] == '/');
    }
    assert(fits_header_line("application/x-bridge-url"@)) by {
        reveal_strlit("application/x-bridge-url");
        assert("application/x-bridge-url"@[11] == '/');
    }
    assert(fits_header_line("application/x-cdf"@)) by {
        reveal_strlit("application/x-cdf");
        assert("application/x-cdf"@[11] == '/');
    }
    assert(fits_header_line("application/x-compress"@)) by {
        reveal_strlit("application/x-compress");
        assert("application/x-compress"@[11] == '/');
    }
    assert(fits_header_line("application/x-compressed"@)) by {
        reveal_strlit("application/x-compressed");
        assert("application/x-compressed"@[11] == '/');
    }
    assert(fits_header_line("application/x-cpio"@)) by {
        reveal_strlit("application/x-cpio");
        assert("application/x-cpio"@[11] == '/');
    }
    assert(fits_header_line("application/x-csh"@)) by {
        reveal_strlit("application/x-csh");
        assert("application/x-csh"@[11] == '/');
    }
    assert(fits_header_line("application/x-director"@)) by {
        reveal_strlit("application/x-director");
        assert("application/x-director"@[11] == '/');
    }
    assert(fits_header_line("application/x-dvi"@)) by {
        reveal_strlit("application/x-dvi");
        assert("application/x-dvi"@[11] == '/');
    }
    assert(fits_header_line("application/x-font-opentype"@)) by {
        reveal_strlit("application/x-font-opentype");
        assert("application/x-font-opentype"@[11] == '/');
    }
    assert(fits_header_line("application/x-font-ttf"@)) by {
        reveal_strlit("application/x-font-ttf");
        assert("application/x-font-ttf"@[11] == '/');
    }
    assert(fits_header_line("application/x-gtar"@)) by {
        reveal_strlit("application/x-gtar");
        assert("application/x-gtar"@[11] == '/');
    }
    assert(fits_header_line("application/x-gzip"@)) by {
        reveal_strlit("application/x-gzip");
        assert("application/x-gzip"@[11] == '/');
    }
    assert(fits_header_line("application/x-hdf"@)) by {
        reveal_strlit("application/x-hdf");
        assert("application/x-hdf"@[11] == '/');
    }
    assert(fits_header_line("application/x-internet-signup"@)) by {
        reveal_strlit("application/x-internet-signup");
        assert("application/x-internet-signup"@[11] == '/');
    }
    assert(fits_header_line("application/x-iphone"@)) by {
        reveal_strlit("application/x-iphone");
        assert("application/x-iphone"@[11] == '/');
    }
    assert(fits_header_line("application/x-itunes-ipa"@)) by {
        reveal_strlit("application/x-itunes-ipa");
        assert("application/x-itunes-ipa"@[11] == '/');
    }
    assert(fits_header_line("application/x-itunes-ipg"@)) by {
        reveal_strlit("application/x-itunes-ipg");
        assert("application/x-itunes-ipg"@[11] == '/');
    }
    assert(fits_header_line("application/x-itunes-ipsw"@)) by {
        reveal_strlit("application/x-itunes-ipsw");
        assert("application/x-itunes-ipsw"@[11] == '/');
    }
    assert(fits_header_line("application/x-itunes-ite"@)) by {
        reveal_strlit("application/x-itunes-ite");
        assert("application/x-itunes-ite"@[11] == '/');
    }
    assert(fits_header_line("application/x-itunes-itlp"@)) by {
        reveal_strlit("application/x-itunes-itlp");
        assert("application/x-itunes-itlp"@[11] == '/');
    }
    assert(fits_header_line("application/x-itunes-itms"@)) by {
        reveal_strlit("application/x-itunes-itms");
        assert("application/x-itunes-itms"@[11] == '/');
    }
    assert(fits_header_line("application/x-itunes-itpc"@)) by {
        reveal_strlit("application/x-itunes-itpc");
        assert("application/x-itunes-itpc"@[11] == '/');
    }
    assert(fits_header_line("application/x-java-applet"@)) by {
        reveal_strlit("application/x-java-applet");
        assert("application/x-java-applet"@[11] == '/');
    }
    assert(fits_header_line("application/x-java-jnlp-file"@)) by {
        reveal_strlit("application/x-java-jnlp-file");
        assert("application/x-java-jnlp-file"@[11] == '/');
    }
    assert(fits_header_line("application/x-latex"@)) by {
        reveal_strlit("application/x-latex");
        assert("application/x-latex"@[11] == '/');
    }
    assert(fits_header_line("application/x-miva-compiled"@)) by {
        reveal_strlit("application/x-miva-compiled");
        assert("application/x-miva-compiled"@[11] == '/');
    }
    assert(fits_header_line("application/x-mmxp"@)) by {
        reveal_strlit("application/x-mmxp");
        assert("application/x-mmxp"@[11] == '/');
    }
    assert(fits_header_line("application/x-mpeg"@)) by {
        reveal_strlit("application/x-mpeg");
        assert("application/x-mpeg"@[11] == '/');
    }
    assert(fits_header_line("application/x-ms-application"@)) by {
        reveal_strlit("application/x-ms-application");
        assert("application/x-ms-application"@[11] == '/');
    }
    assert(fits_header_line("application/x-ms-license"@)) by {
        reveal_strlit("application/x-ms-license");
        assert("application/x-ms-license"@[11] == '/');
    }
    assert(fits_header_line("application/x-ms-manifest"@)) by {
        reveal_strlit("application/x-ms-manifest");
        assert("application/x-ms-manifest"@[11] == '/');
    }
    assert(fits_header_line("application/x-ms-reader"@)) by {
        reveal_strlit("application/x-ms-reader");
        assert("application/x-ms-reader"@[11] == '/');
    }
    assert(fits_header_line("application/x-ms-vsto"@)) by {
        reveal_strlit("application/x-ms-vsto");
        assert("application/x-ms-vsto"@[11] == '/');
    }
    assert(fits_header_line("application/x-ms-wmd"@)) by {
        reveal_strlit("application/x-ms-wmd");
        assert("application/x-ms-wmd"@[11] == '/');
    }
    assert(fits_header_line("application/x-ms-wmz"@)) by {
        reveal_strlit("application/x-ms-wmz");
        assert("application/x-ms-wmz"@[11] == '/');
    }
    assert(fits_header_line("application/x-ms-xbap"@)) by {
        reveal_strlit("application/x-ms-xbap");
        assert("application/x-ms-xbap"@[11] == '/');
    }
    assert(fits_header_line("application/x-msaccess"@)) by {
        reveal_strlit("application/x-msaccess");
        assert("application/x-msaccess"@[11] == '/');
    }
    assert(fits_header_line("application/x-mscardfile"@)) by {
        reveal_strlit("application/x-mscardfile");
        assert("application/x-mscardfile"@[11] == '/');
    }
    assert(fits_header_line("application/x-msclip"@)) by {
        reveal_strlit("application/x-msclip");
        assert("application/x-msclip"@[11] == '/');
    }
    assert(fits_header_line("application/x-msdownload"@)) by {
        reveal_strlit("application/x-msdownload");
        assert("application/x-msdownload"@[11] == '/');
    }
    assert(fits_header_line("application/x-msmediaview"@)) by {
        reveal_strlit("application/x-msmediaview");
        assert("application/x-msmediaview"@[11] == '/');
    }
    assert(fits_header_line("application/x-msmetafile"@)) by {
        reveal_strlit("application/x-msmetafile");
        assert("application/x-msmetafile"@[11] == '/');
    }
    assert(fits_header_line("application/x-msmoney"@)) by {
        reveal_strlit("application/x-msmoney");
        assert("application/x-msmoney"@[11] == '/');
    }
    assert(fits_header_line("application/x-mspublisher"@)) by {
        reveal_strlit("application/x-mspublisher");
        assert("application/x-mspublisher"@[11] == '/');
    }
    assert(fits_header_line("application/x-msschedule"@)) by {
        reveal_strlit("application/x-msschedule");
        assert("application/x-msschedule"@[11] == '/');
    }
    assert(fits_header_line("application/x-msterminal"@)) by {
        reveal_strlit("application/x-msterminal");
        assert("application/x-msterminal"@[11] == '/');
    }
    assert(fits_header_line("application/x-mswrite"@)) by {
        reveal_strlit("application/x-mswrite");
        assert("application/x-mswrite"@[11] == '/');
    }
    assert(fits_header_line("application/x-netcdf"@)) by {
        reveal_strlit("application/x-netcdf");
        assert("application/x-netcdf"@[11] == '/');
    }
    assert(fits_header_line("application/x-oleobject"@)) by {
        reveal_strlit("application/x-oleobject");
        assert("application/x-oleobject"@[11] == '/');
    }
    assert(fits_header_line("application/x-perfmon"@)) by {
        reveal_strlit("application/x-perfmon");
        assert("application/x-perfmon"@[11] == '/');
    }
    assert(fits_header_line("application/x-pkcs12"@)) by {
        reveal_strlit("application/x-pkcs12");
        assert("application/x-pkcs12"@[11] == '/');
    }
    assert(fits_header_line("application/x-pkcs7-certificates"@)) by {
        reveal_strlit("application/x-pkcs7-certificates");
        assert("application/x-pkcs7-certificates"@[11] == '/');
    }
    assert(fits_header_line("application/x-pkcs7-certreqresp"@)) by {
        reveal_strlit("application/x-pkcs7-certreqresp");
        assert("application/x-pkcs7-certreqresp"@[11] == '/');
    }
    assert(fits_header_line("application/x-podcast"@)) by {
        reveal_strlit("application/x-podcast");
        assert("application/x-podcast"@[11] == '/');
    }
    assert(fits_header_line("application/x-quicktimeplayer"@)) by {
        reveal_strlit("application/x-quicktimeplayer");
        assert("application/x-quicktimeplayer"@[11] == '/');
    }
    assert(fits_header_line("application/x-safari-safariextz"@)) by {
        reveal_strlit("application/x-safari-safariextz");
        assert("application/x-safari-safariextz"@[11] == '/');
    }
    assert(fits_header_line("application/x-safari-webarchive"@)) by {
        reveal_strlit("application/x-safari-webarchive");
        assert("application/x-safari-webarchive"@[11] == '/');
    }
    assert(fits_header_line("application/x-sgimb"@)) by {
        reveal_strlit("application/x-sgimb");
        assert("application/x-sgimb"@[11] == '/');
    }
    assert(fits_header_line("application/x-sh"@)) by {
        reveal_strlit("application/x-sh");
        assert("application/x-sh"@[11] == '/');
    }
    assert(fits_header_line("application/x-shar"@)) by {
        reveal_strlit("application/x-shar");
        assert("application/x-shar"@[11] == '/');
    }
    assert(fits_header_line("application/x-shockwave-flash"@)) by {
        reveal_strlit("application/x-shockwave-flash");
        assert("application/x-shockwave-flash"@[11] == '/');
    }
    assert(fits_header_line("application/x-silverlight-app"@)) by {
        reveal_strlit("application/x-silverlight-app");
        assert("application/x-silverlight-app"@[11] == '/');
    }
    assert(fits_header_line("application/x-smaf"@)) by {
        reveal_strlit("application/x-smaf");
        assert("application/x-smaf"@[11] == '/');
    }
    assert(fits_header_line("application/x-stuffit"@)) by {
        reveal_strlit("application/x-stuffit");
        assert("application/x-stuffit"@[11] == '/');
    }
    assert(fits_header_line("application/x-sv4cpio"@)) by {
        reveal_strlit("application/x-sv4cpio");
        assert("application/x-sv4cpio"@[11] == '/');
    }
    assert(fits_header_line("application/x-sv4crc"@)) by {
        reveal_strlit("application/x-sv4crc");
        assert("application/x-sv4crc"@[11] == '/');
    }
    assert(fits_header_line("application/x-tar"@)) by {
        reveal_strlit("application/x-tar");
        assert("application/x-tar"@[11] == '/');
    }
    assert(fits_header_line("application/x-tcl"@)) by {
        reveal_strlit("application/x-tcl");
        assert("application/x-tcl"@[11] == '/');
    }
    assert(fits_header_line("application/x-tex"@)) by {
        reveal_strlit("application/x-tex");
        assert("application/x-tex"@[11] == '/');
    }
    assert(fits_header_line("application/x-texinfo"@)) by {
        reveal_strlit("application/x-texinfo");
        assert("application/x-texinfo"@[11] == '/');
    }
    assert(fits_header_line("application/x-troff"@)) by {
        reveal_strlit("application/x-troff");
        assert("application/x-troff"@[11] == '/');
    }
    assert(fits_header_line("application/x-troff-man"@)) by {
        reveal_strlit("application/x-troff-man");
        assert("application/x-troff-man"@[11] == '/');
    }
    assert(fits_header_line("application/x-troff-me"@)) by {
        reveal_strlit("application/x-troff-me");
        assert("application/x-troff-me"@[11] == '/');
    }
    assert(fits_header_line("application/x-troff-ms"@)) by {
        reveal_strlit("application/x-troff-ms");
        assert("application/x-troff-ms"@[11] == '/');
    }
    assert(fits_header_line("application/x-ustar"@)) by {
        reveal_strlit("application/x-ustar");
        assert("application/x-ustar"@[11] == '/');
    }
    assert(fits_header_line("application/x-wais-source"@)) by {
        reveal_strlit("application/x-wais-source");
        assert("application/x-wais-source"@[11] == '/');
    }
    assert(fits_header_line("application/x-wlpg-detect"@)) by {
        reveal_strlit("application/x-wlpg-detect");
        assert("application/x-wlpg-detect"@[11] == '/');
    }
    assert(fits_header_line("application/x-wlpg3-detect"@)) by {
        reveal_strlit("application/x-wlpg3-detect");
        assert("application/x-wlpg3-detect"@[11] == '/');
    }
    assert(fits_header_line("application/x-x509-ca-cert"@)) by {
        reveal_strlit("application/x-x509-ca-cert");
        assert("application/x-x509-ca-cert"@[11] == '/');
    }
    assert(fits_header_line("application/xaml+xml"@)) by {
        reveal_strlit("application/xaml+xml");
        assert("application/xaml+xml"@[11] == '/');
    }
    assert(fits_header_line("application/xhtml+xml"@)) by {
        reveal_strlit("application/xhtml+xml");
        assert("application/xhtml+xml"@[11] == '/');
    }
    assert(fits_header_line("application/xml"@)) by {
        reveal_strlit("application/xml");
        assert("application/xml"@[11] == '/');
    }
    assert(fits_header_line("application/xslt+xml"@)) by {
        reveal_strlit("application/xslt+xml");
        assert("application/xslt+xml"@[11] == '/');
    }
    assert(fits_header_line("application/zip"@)) by {
        reveal_strlit("application/zip");
        assert("application/zip"@[11] == '/');
    }
    assert(fits_header_line("audio/aac"@)) by {
        reveal_strlit("audio/aac");
        assert("audio/aac"@[5] == '/');
    }
    assert(fits_header_line("audio/ac3"@)) by {
        reveal_strlit("audio/ac3");
        assert("audio/ac3"@[5] == '/');
    }
    assert(fits_header_line("audio/aiff"@)) by {
        reveal_strlit("audio/aiff");
        assert("audio/aiff"@[5] == '/');
    }
    assert(fits_header_line("audio/audible"@)) by {
        reveal_strlit("audio/audible");
        assert("audio/audible"@[5] == '/');
    }
    assert(fits_header_line("audio/basic"@)) by {
        reveal_strlit("audio/basic");
        assert("audio/basic"@[5] == '/');
    }
    assert(fits_header_line("audio/m4a"@)) by {
        reveal_strlit("audio/m4a");
        assert("audio/m4a"@[5] == '/');
    }
    assert(fits_header_line("audio/m4b"@)) by {
        reveal_strlit("audio/m4b");
        assert("audio/m4b"@[5] == '/');
    }
    assert(fits_header_line("audio/m4p"@)) by {
        reveal_strlit("audio/m4p");
        assert("audio/m4p"@[5] == '/');
    }
    assert(fits_header_line("audio/mid"@)) by {
        reveal_strlit("audio/mid");
        assert("audio/mid"@[5] == '/');
    }
    assert(fits_header_line("audio/mpeg"@)) by {
        reveal_strlit("audio/mpeg");
        assert("audio/mpeg"@[5] == '/');
    }
    assert(fits_header_line("audio/scpls"@)) by {
        reveal_strlit("audio/scpls");
        assert("audio/scpls"@[5] == '/');
    }
    assert(fits_header_line("audio/vnd.audible.aax"@)) by {
        reveal_strlit("audio/vnd.audible.aax");
        assert("audio/vnd.audible.aax"@[5] == '/');
    }
    assert(fits_header_line("audio/vnd.dlna.adts"@)) by {
        reveal_strlit("audio/vnd.dlna.adts");
        assert("audio/vnd.dlna.adts"@[5] == '/');
    }
    assert(fits_header_line("audio/wav"@)) by {
        reveal_strlit("audio/wav");
        assert("audio/wav"@[5] == '/');
    }
    assert(fits_header_line("audio/x-aiff"@)) by {
        reveal_strlit("audio/x-aiff");
        assert("audio/x-aiff"@[5] == '/');
    }
    assert(fits_header_line("audio/x-caf"@)) by {
        reveal_strlit("audio/x-caf");
        assert("audio/x-caf"@[5] == '/');
    }
    assert(fits_header_line("audio/x-gsm"@)) by {
        reveal_strlit("audio/x-gsm");
        assert("audio/x-gsm"@[5] == '/');
    }
    assert(fits_header_line("audio/x-m4r"@)) by {
        reveal_strlit("audio/x-m4r");
        assert("audio/x-m4r"@[5] == '/');
    }
    assert(fits_header_line("audio/x-mpegurl"@)) by {
        reveal_strlit("audio/x-mpegurl");
        assert("audio/x-mpegurl"@[5] == '/');
    }
    assert(fits_header_line("audio/x-ms-wax"@)) by {
        reveal_strlit("audio/x-ms-wax");
        assert("audio/x-ms-wax"@[5] == '/');
    }
    assert(fits_header_line("audio/x-ms-wma"@)) by {
        reveal_strlit("audio/x-ms-wma");
        assert("audio/x-ms-wma"@[5] == '/');
    }
    assert(fits_header_line("audio/x-pn-realaudio"@)) by {
        reveal_strlit("audio/x-pn-realaudio");
        assert("audio/x-pn-realaudio"@[5] == '/');
    }
    assert(fits_header_line("audio/x-pn-realaudio-plugin"@)) by {
        reveal_strlit("audio/x-pn-realaudio-plugin");
        assert("audio/x-pn-realaudio-plugin"@[5] == '/');
    }
    assert(fits_header_line("audio/x-sd2"@)) by {
        reveal_strlit("audio/x-sd2");
        assert("audio/x-sd2"@[5] == '/');
    }
    assert(fits_header_line("audio/x-smd"@)) by {
        reveal_strlit("audio/x-smd");
        assert("audio/x-smd"@[5] == '/');
    }
    assert(fits_header_line("drawing/x-dwf"@)) by {
        reveal_strlit("drawing/x-dwf");
        assert("drawing/x-dwf"@[7] == '/');
    }
    assert(fits_header_line("image/bmp"@)) by {
        reveal_strlit("image/bmp");
        assert("image/bmp"@[5] == '/');
    }
    assert(fits_header_line("image/cis-cod"@)) by {
        reveal_strlit("image/cis-cod");
        assert("image/cis-cod"@[5] == '/');
    }
    assert(fits_header_line("image/gif"@)) by {
        reveal_strlit("image/gif");
        assert("image/gif"@[5] == '/');
    }
    assert(fits_header_line("image/ief"@)) by {
        reveal_strlit("image/ief");
        assert("image/ief"@[5] == '/');
    }
    assert(fits_header_line("image/jpeg"@)) by {
        reveal_strlit("image/jpeg");
        assert("image/jpeg"@[5] == '/');
    }
    assert(fits_header_line("image/pict"@)) by {
        reveal_strlit("image/pict");
        assert("image/pict"@[5] == '/');
    }
    assert(fits_header_line("image/pjpeg"@)) by {
        reveal_strlit("image/pjpeg");
        assert("image/pjpeg"@[5] == '/');
    }
    assert(fits_header_line("image/png"@)) by {
        reveal_strlit("image/png");
        assert("image/png"@[5] == '/');
    }
    assert(fits_header_line("image/svg+xml"@)) by {
        reveal_strlit("image/svg+xml");
        assert("image/svg+xml"@[5] == '/');
    }
    assert(fits_header_line("image/tiff"@)) by {
        reveal_strlit("image/tiff");
        assert("image/tiff"@[5] == '/');
    }
    assert(fits_header_line("image/vnd.ms-photo"@)) by {
        reveal_strlit("image/vnd.ms-photo");
        assert("image/vnd.ms-photo"@[5] == '/');
    }
    assert(fits_header_line("image/vnd.rn-realflash"@)) by {
        reveal_strlit("image/vnd.rn-realflash");
        assert("image/vnd.rn-realflash"@[5] == '/');
    }
    assert(fits_header_line("image/vnd.wap.wbmp"@)) by {
        reveal_strlit("image/vnd.wap.wbmp");
        assert("image/vnd.wap.wbmp"@[5] == '/');
    }
    assert(fits_header_line("image/x-cmu-raster"@)) by {
        reveal_strlit("image/x-cmu-raster");
        assert("image/x-cmu-raster"@[5] == '/');
    }
    assert(fits_header_line("image/x-cmx"@)) by {
        reveal_strlit("image/x-cmx");
        assert("image/x-cmx"@[5] == '/');
    }
    assert(fits_header_line("image/x-icon"@)) by {
        reveal_strlit("image/x-icon");
        assert("image/x-icon"@[5] == '/');
    }
    assert(fits_header_line("image/x-jg"@)) by {
        reveal_strlit("image/x-jg");
        assert("image/x-jg"@[5] == '/');
    }
    assert(fits_header_line("image/x-macpaint"@)) by {
        reveal_strlit("image/x-macpaint");
        assert("image/x-macpaint"@[5] == '/');
    }
    assert(fits_header_line("image/x-portable-anymap"@)) by {
        reveal_strlit("image/x-portable-anymap");
        assert("image/x-portable-anymap"@[5] == '/');
    }
    assert(fits_header_line("image/x-portable-bitmap"@)) by {
        reveal_strlit("image/x-portable-bitmap");
        assert("image/x-portable-bitmap"@[5] == '/');
    }
    assert(fits_header_line("image/x-portable-graymap"@)) by {
        reveal_strlit("image/x-portable-graymap");
        assert("image/x-portable-graymap"@[5] == '/');
    }
    assert(fits_header_line("image/x-portable-pixmap"@)) by {
        reveal_strlit("image/x-portable-pixmap");
        assert("image/x-portable-pixmap"@[5] == '/');
    }
    assert(fits_header_line("image/x-quicktime"@)) by {
        reveal_strlit("image/x-quicktime");
        assert("image/x-quicktime"@[5] == '/');
    }
    assert(fits_header_line("image/x-rgb"@)) by {
        reveal_strlit("image/x-rgb");
        assert("image/x-rgb"@[5] == '/');
    }
    assert(fits_header_line("image/x-xbitmap"@)) by {
        reveal_strlit("image/x-xbitmap");
        assert("image/x-xbitmap"@[5] == '/');
    }
    assert(fits_header_line("image/x-xpixmap"@)) by {
        reveal_strlit("image/x-xpixmap");
        assert("image/x-xpixmap"@[5] == '/');
    }
    assert(fits_header_line("image/x-xwindowdump"@)) by {
        reveal_strlit("image/x-xwindowdump");
        assert("image/x-xwindowdump"@[5] == '/');
    }
    assert(fits_header_line("message/rfc822"@)) by {
        reveal_strlit("message/rfc822");
        assert("message/rfc822"@[7] == '/');
    }
    assert(fits_header_line("text/css; charset=utf8"@)) by {
        reveal_strlit("text/css; charset=utf8");
        assert("text/css; charset=utf8"@[4] == '/');
    }
    assert(fits_header_line("text/csv; charset=utf8"@)) by {
        reveal_strlit("text/csv; charset=utf8");
        assert("text/csv; charset=utf8"@[4] == '/');
    }
    assert(fits_header_line("text/dlm; charset=utf8"@)) by {
        reveal_strlit("text/dlm; charset=utf8");
        assert("text/dlm; charset=utf8"@[4] == '/');
    }
    assert(fits_header_line("text/h323; charset=utf8"@)) by {
        reveal_strlit("text/h323; charset=utf8");
        assert("text/h323; charset=utf8"@[4] == '/');
    }
    assert(fits_header_line("text/html; charset=utf8"@)) by {
        reveal_strlit("text/html; charset=utf8");
        assert("text/html; charset=utf8"@[4] == '/');
    }
    assert(fits_header_line("text/iuls; charset=utf8"@)) by {
        reveal_strlit("text/iuls; charset=utf8");
        assert("text/iuls; charset=utf8"@[4] == '/');
    }
    assert(fits_header_line("text/jscript; charset=utf8"@)) by {
        reveal_strlit("text/jscript; charset=utf8");
        assert("text/jscript; charset=utf8"@[4] == '/');
    }
    assert(fits_header_line("text/plain; charset=utf8"@)) by {
        reveal_strlit("text/plain; charset=utf8");
        assert("text/plain; charset=utf8"@[4] == '/');
    }
    assert(fits_header_line("text/richtext; charset=utf8"@)) by {
        reveal_strlit("text/richtext; charset=utf8");
        assert("text/richtext; charset=utf8"@[4] == '/');
    }
    assert(fits_header_line("text/scriptlet; charset=utf8"@)) by {
        reveal_strlit("text/scriptlet; charset=utf8");
        assert("text/scriptlet; charset=utf8"@[4] == '/');
    }
    assert(fits_header_line("text/sgml; charset=utf8"@)) by {
        reveal_strlit("text/sgml; charset=utf8");
        assert("text/sgml; charset=utf8"@[4] == '/');
    }
    assert(fits_header_line("text/tab-separated-values; charset=utf8"@)) by {
        reveal_strlit("text/tab-separated-values; charset=utf8");
        assert("text/tab-separated-values; charset=utf8"@[4] == '/');
    }
    assert(fits_header_line("text/vbscript; charset=utf8"@)) by {
        reveal_strlit("text/vbscript; charset=utf8");
        assert("text/vbscript; charset=utf8"@[4] == '/');
    }
    assert(fits_header_line("text/vnd.wap.wml; charset=utf8"@)) by {
        reveal_strlit("text/vnd.wap.wml; charset=utf8");
        assert("text/vnd.wap.wml; charset=utf8"@[4] == '/');
    }
    assert(fits_header_line("text/vnd.wap.wmlscript; charset=utf8"@)) by {
        reveal_strlit("text/vnd.wap.wmlscript; charset=utf8");
        assert("text/vnd.wap.wmlscript; charset=utf8"@[4] == '/');
    }
    assert(fits_header_line("text/webviewhtml; charset=utf8"@)) by {
        reveal_strlit("text/webviewhtml; charset=utf8");
        assert("text/webviewhtml; charset=utf8"@[4] == '/');
    }
    assert(fits_header_line("text/x-component; charset=utf8"@)) by {
        reveal_strlit("text/x-component; charset=utf8");
        assert("text/x-component; charset=utf8"@[4] == '/');
    }
    assert(fits_header_line("text/x-hdml; charset=utf8"@)) by {
        reveal_strlit("text/x-hdml; charset=utf8");
        assert("text/x-hdml; charset=utf8"@[4] == '/');
    }
    assert(fits_header_line("text/x-html-insertion; charset=utf8"@)) by {
        reveal_strlit("text/x-html-insertion; charset=utf8");
        assert("text/x-html-insertion; charset=utf8"@[4] == '/');
    }
    assert(fits_header_line("text/x-ms-contact; charset=utf8"@)) by {
        reveal_strlit("text/x-ms-contact; charset=utf8");
        assert("text/x-ms-contact; charset=utf8"@[4] == '/');
    }
    assert(fits_header_line("text/x-ms-group; charset=utf8"@)) by {
        reveal_strlit("text/x-ms-group; charset=utf8");
        assert("text/x-ms-group; charset=utf8"@[4] == '/');
    }
    assert(fits_header_line("text/x-ms-iqy; charset=utf8"@)) by {
        reveal_strlit("text/x-ms-iqy; charset=utf8");
        assert("text/x-ms-iqy; charset=utf8"@[4] == '/');
    }
    assert(fits_header_line("text/x-ms-odc; charset=utf8"@)) by {
        reveal_strlit("text/x-ms-odc; charset=utf8");
        assert("text/x-ms-odc; charset=utf8"@[4] == '/');
    }
    assert(fits_header_line("text/x-ms-rqy; charset=utf8"@)) by {
        reveal_strlit("text/x-ms-rqy; charset=utf8");
        assert("text/x-ms-rqy; charset=utf8"@[4] == '/');
    }
    assert(fits_header_line("text/x-setext; charset=utf8"@)) by {
        reveal_strlit("text/x-setext; charset=utf8");
        assert("text/x-setext; charset=utf8"@[4] == '/');
    }
    assert(fits_header_line("text/x-vcard; charset=utf8"@)) by {
        reveal_strlit("text/x-vcard; charset=utf8");
        assert("text/x-vcard; charset=utf8"@[4] == '/');
    }
    assert(fits_header_line("video/3gpp"@)) by {
        reveal_strlit("video/3gpp");
        assert("video/3gpp"@[5] == '/');
    }
    assert(fits_header_line("video/3gpp2"@)) by {
        reveal_strlit("video/3gpp2");
        assert("video/3gpp2"@[5] == '/');
    }
    assert(fits_header_line("video/mp4"@)) by {
        reveal_strlit("video/mp4");
        assert("video/mp4"@[5] == '/');
    }
    assert(fits_header_line("video/mpeg"@)) by {
        reveal_strlit("video/mpeg");
        assert("video/mpeg"@[5] == '/');
    }
    assert(fits_header_line("video/quicktime"@)) by {
        reveal_strlit("video/quicktime");
        assert("video/quicktime"@[5] == '/');
    }
    assert(fits_header_line("video/vnd.dlna.mpeg-tts"@)) by {
        reveal_strlit("video/vnd.dlna.mpeg-tts");
        assert("video/vnd.dlna.mpeg-tts"@[5] == '/');
    }
    assert(fits_header_line("video/x-dv"@)) by {
        reveal_strlit("video/x-dv");
        assert("video/x-dv"@[5] == '/');
    }
    assert(fits_header_line("video/x-flv"@)) by {
        reveal_strlit("video/x-flv");
        assert("video/x-flv"@[5] == '/');
    }
    assert(fits_header_line("video/x-ivf"@)) by {
        reveal_strlit("video/x-ivf");
        assert("video/x-ivf"@[5] == '/');
    }
    assert(fits_header_line("video/x-la-asf"@)) by {
        reveal_strlit("video/x-la-asf");
        assert("video/x-la-asf"@[5] == '/');
    }
    assert(fits_header_line("video/x-m4v"@)) by {
        reveal_strlit("video/x-m4v");
        assert("video/x-m4v"@[5] == '/');
    }
    assert(fits_header_line("video/x-ms-asf"@)) by {
        reveal_strlit("video/x-ms-asf");
        assert("video/x-ms-asf"@[5] == '/');
    }
    assert(fits_header_line("video/x-ms-wm"@)) by {
        reveal_strlit("video/x-ms-wm");
        assert("video/x-ms-wm"@[5] == '/');
    }
    assert(fits_header_line("video/x-ms-wmp"@)) by {
        reveal_strlit("video/x-ms-wmp");
        assert("video/x-ms-wmp"@[5] == '/');
    }
    assert(fits_header_line("video/x-ms-wmv"@)) by {
        reveal_strlit("video/x-ms-wmv");
        assert("video/x-ms-wmv"@[5] == '/');
    }
    assert(fits_header_line("video/x-ms-wmx"@)) by {
        reveal_strlit("video/x-ms-wmx");
        assert("video/x-ms-wmx"@[5] == '/');
    }
    assert(fits_header_line("video/x-ms-wvx"@)) by {
        reveal_strlit("video/x-ms-wvx");
        assert("video/x-ms-wvx"@[5] == '/');
    }
    assert(fits_header_line("video/x-msvideo"@)) by {
        reveal_strlit("video/x-msvideo");
        assert("video/x-msvideo"@[5] == '/');
    }
    assert(fits_header_line("video/x-sgi-movie"@)) by {
        reveal_strlit("video/x-sgi-movie");
        assert("video/x-sgi-movie"@[5] == '/');
    }
    assert(fits_header_line("x-world/x-vrml"@)) by {
        reveal_strlit("x-world/x-vrml");
        assert("x-world/x-vrml"@[7] == '/');
    }
}

/// The characters of the extensions of table entries 1 to 20
/// (they tell the entries apart).
proof fn lemma_table_extensions_1()
    ensures
        "323"@.len() == 3 && "323"@[0] == '3' && "323"@[1] == '2' && "323"@[2] == '3',
        "3g2"@.len() == 3 && "3g2"@[0] == '3' && "3g2"@[1] == 'g' && "3g2"@[2] == '2',
        "3gp"@.len() == 3 && "3gp"@[0] == '3' && "3gp"@[1] == 'g' && "3gp"@[2] == 'p',
        "3gp2"@.len() == 4 && "3gp2"@[0] == '3' && "3gp2"@[1] == 'g' && "3gp2"@[2] == 'p' && "3gp2"@[3] == '2',
        "3gpp"@.len() == 4 && "3gpp"@[0] == '3' && "3gpp"@[1] == 'g' && "3gpp"@[2] == 'p' && "3gpp"@[3] == 'p',
        "7z"@.len() == 2 && "7z"@[0] == '7' && "7z"@[1] == 'z',
        "aa"@.len() == 2 && "aa"@[0] == 'a' && "aa"@[1] == 'a',
        "aac"@.len() == 3 && "aac"@[0] == 'a' && "aac"@[1] == 'a' && "aac"@[2] == 'c',
        "aaf"@.len() == 3 && "aaf"@[0] == 'a' && "aaf"@[1] == 'a' && "aaf"@[2] == 'f',
        "aax"@.len() == 3 && "aax"@[0] == 'a' && "aax"@[1] == 'a' && "aax"@[2] == 'x',
        "ac3"@.len() == 3 && "ac3"@[0] == 'a' && "ac3"@[1] == 'c' && "ac3"@[2] == '3',
        "aca"@.len() == 3 && "aca"@[0] == 'a' && "aca"@[1] == 'c' && "aca"@[2] == 'a',
        "accda"@.len() == 5 && "accda"@[0] == 'a' && "accda"@[1] == 'c' && "accda"@[2] == 'c' && "accda"@[3] == 'd' && "accda"@[4] == 'a',
        "accdb"@.len() == 5 && "accdb"@[0] == 'a' && "accdb"@[1] == 'c' && "accdb"@[2] == 'c' && "accdb"@[3] == 'd' && "accdb"@[4] == 'b',
        "accdc"@.len() == 5 && "accdc"@[0] == 'a' && "accdc"@[1] == 'c' && "accdc"@[2] == 'c' && "accdc"@[3] == 'd' && "accdc"@[4] == 'c',
        "accde"@.len() == 5 && "accde"@[0] == 'a' && "accde"@[1] == 'c' && "accde"@[2] == 'c' && "accde"@[3] == 'd' && "accde"@[4] == 'e',
        "accdr"@.len() == 5 && "accdr"@[0] == 'a' && "accdr"@[1] == 'c' && "accdr"@[2] == 'c' && "accdr"@[3] == 'd' && "accdr"@[4] == 'r',
        "accdt"@.len() == 5 && "accdt"@[0] == 'a' && "accdt"@[1] == 'c' && "accdt"@[2] == 'c' && "accdt"@[3] == 'd' && "accdt"@[4] == 't',
        "accdw"@.len() == 5 && "accdw"@[0] == 'a' && "accdw"@[1] == 'c' && "accdw"@[2] == 'c' && "accdw"@[3] == 'd' && "accdw"@[4] == 'w',
        "accft"@.len() == 5 && "accft"@[0] == 'a' && "accft"@[1] == 'c' && "accft"@[2] == 'c' && "accft"@[3] == 'f' && "accft"@[4] == 't',
{
    reveal_strlit("323");
    reveal_strlit("3g2");
    reveal_strlit("3gp");
    reveal_strlit("3gp2");
    reveal_strlit("3gpp");
    reveal_strlit("7z");
    reveal_strlit("aa");
    reveal_strlit("aac");
    reveal_strlit("aaf");
    reveal_strlit("aax");
    reveal_strlit("ac3");
    reveal_strlit("aca");
    reveal_strlit("accda");
    reveal_strlit("accdb");
    reveal_strlit("accdc");
    reveal_strlit("accde");
    reveal_strlit("accdr");
    reveal_strlit("accdt");
    reveal_strlit("accdw");
    reveal_strlit("accft");
}

/// The characters of the extensions of table entries 21 to 40
/// (they tell the entries apart).
proof fn lemma_table_extensions_2()
    ensures
        "acx"@.len() == 3 && "acx"@[0] == 'a' && "acx"@[1] == 'c' && "acx"@[2] == 'x',
        "addin"@.len() == 5 && "addin"@[0] == 'a' && "addin"@[1] == 'd' && "addin"@[2] == 'd' && "addin"@[3] == 'i' && "addin"@[4] == 'n',
        "ade"@.len() == 3 && "ade"@[0] == 'a' && "ade"@[1] == 'd' && "ade"@[2] == 'e',
        "adobebridge"@.len() == 11 && "adobebridge"@[0] == 'a' && "adobebridge"@[1] == 'd' && "adobebridge"@[2] == 'o' && "adobebridge"@[3] == 'b' && "adobebridge"@[4] == 'e' && "adobebridge"@[5] == 'b' && "adobebridge"@[6] == 'r' && "adobebridge"@[7] == 'i' && "adobebridge"@[8] == 'd' && "adobebridge"@[9] == 'g' && "adobebridge"@[10] == 'e',
        "adp"@.len() == 3 && "adp"@[0] == 'a' && "adp"@[1] == 'd' && "adp"@[2] == 'p',
        "adt"@.len() == 3 && "adt"@[0] == 'a' && "adt"@[1] == 'd' && "adt"@[2] == 't',
        "adts"@.len() == 4 && "adts"@[0] == 'a' && "adts"@[1] == 'd' && "adts"@[2] == 't' && "adts"@[3] == 's',
        "afm"@.len() == 3 && "afm"@[0] == 'a' && "afm"@[1] == 'f' && "afm"@[2] == 'm',
        "ai"@.len() == 2 && "ai"@[0] == 'a' && "ai"@[1] == 'i',
        "aif"@.len() == 3 && "aif"@[0] == 'a' && "aif"@[1] == 'i' && "aif"@[2] == 'f',
        "aifc"@.len() == 4 && "aifc"@[0] == 'a' && "aifc"@[1] == 'i' && "aifc"@[2] == 'f' && "aifc"@[3] == 'c',
        "aiff"@.len() == 4 && "aiff"@[0] == 'a' && "aiff"@[1] == 'i' && "aiff"@[2] == 'f' && "aiff"@[3] == 'f',
        "air"@.len() == 3 && "air"@[0] == 'a' && "air"@[1] == 'i' && "air"@[2] == 'r',
        "amc"@.len() == 3 && "amc"@[0] == 'a' && "amc"@[1] == 'm' && "amc"@[2] == 'c',
        "application"@.len() == 11 && "application"@[0] == 'a' && "application"@[1] == 'p' && "application"@[2] == 'p' && "application"@[3] == 'l' && "application"@[4] == 'i' && "application"@[5] == 'c' && "application"@[6] == 'a' && "application"@[7] == 't' && "application"@[8] == 'i' && "application"@[9] == 'o' && "application"@[10] == 'n',
        "art"@.len() == 3 && "art"@[0] == 'a' && "art"@[1] == 'r' && "art"@[2] == 't',
        "asa"@.len() == 3 && "asa"@[0] == 'a' && "asa"@[1] == 's' && "asa"@[2] == 'a',
        "asax"@.len() == 4 && "asax"@[0] == 'a' && "asax"@[1] == 's' && "asax"@[2] == 'a' && "asax"@[3] == 'x',
        "ascx"@.len() == 4 && "ascx"@[0] == 'a' && "ascx"@[1] == 's' && "ascx"@[2] == 'c' && "ascx"@[3] == 'x',
        "asd"@.len() == 3 && "asd"@[0] == 'a' && "asd"@[1] == 's' && "asd"@[2] == 'd',
{
    reveal_strlit("acx");
    reveal_strlit("addin");
    reveal_strlit("ade");
    reveal_strlit("adobebridge");
    reveal_strlit("adp");
    reveal_strlit("adt");
    reveal_strlit("adts");
    reveal_strlit("afm");
    reveal_strlit("ai");
    reveal_strlit("aif");
    reveal_strlit("aifc");
    reveal_strlit("aiff");
    reveal_strlit("air");
    reveal_strlit("amc");
    reveal_strlit("application");
    reveal_strlit("art");
    reveal_strlit("asa");
    reveal_strlit("asax");
    reveal_strlit("ascx");
    reveal_strlit("asd");
}

/// The characters of the extensions of table entries 41 to 60
/// (they tell the entries apart).
proof fn lemma_table_extensions_3()
    ensures
        "asf"@.len() == 3 && "asf"@[0] == 'a' && "asf"@[1] == 's' && "asf"@[2] == 'f',
        "ashx"@.len() == 4 && "ashx"@[0] == 'a' && "ashx"@[1] == 's' && "ashx"@[2] == 'h' && "ashx"@[3] == 'x',
        "asi"@.len() == 3 && "asi"@[0] == 'a' && "asi"@[1] == 's' && "asi"@[2] == 'i',
        "asm"@.len() == 3 && "asm"@[0] == 'a' && "asm"@[1] == 's' && "asm"@[2] == 'm',
        "asmx"@.len() == 4 && "asmx"@[0] == 'a' && "asmx"@[1] == 's' && "asmx"@[2] == 'm' && "asmx"@[3] == 'x',
        "aspx"@.len() == 4 && "aspx"@[0] == 'a' && "aspx"@[1] == 's' && "aspx"@[2] == 'p' && "aspx"@[3] == 'x',
        "asr"@.len() == 3 && "asr"@[0] == 'a' && "asr"@[1] == 's' && "asr"@[2] == 'r',
        "asx"@.len() == 3 && "asx"@[0] == 'a' && "asx"@[1] == 's' && "asx"@[2] == 'x',
        "atom"@.len() == 4 && "atom"@[0] == 'a' && "atom"@[1] == 't' && "atom"@[2] == 'o' && "atom"@[3] == 'm',
        "au"@.len() == 2 && "au"@[0] == 'a' && "au"@[1] == 'u',
        "avi"@.len() == 3 && "avi"@[0] == 'a' && "avi"@[1] == 'v' && "avi"@[2] == 'i',
        "axs"@.len() == 3 && "axs"@[0] == 'a' && "axs"@[1] == 'x' && "axs"@[2] == 's',
        "bas"@.len() == 3 && "bas"@[0] == 'b' && "bas"@[1] == 'a' && "bas"@[2] == 's',
        "bcpio"@.len() == 5 && "bcpio"@[0] == 'b' && "bcpio"@[1] == 'c' && "bcpio"@[2] == 'p' && "bcpio"@[3] == 'i' && "bcpio"@[4] == 'o',
        "bin"@.len() == 3 && "bin"@[0] == 'b' && "bin"@[1] == 'i' && "bin"@[2] == 'n',
        "bmp"@.len() == 3 && "bmp"@[0] == 'b' && "bmp"@[1] == 'm' && "bmp"@[2] == 'p',
        "c"@.len() == 1 && "c"@[0] == 'c',
        "cab"@.len() == 3 && "cab"@[0] == 'c' && "cab"@[1] == 'a' && "cab"@[2] == 'b',
        "caf"@.len() == 3 && "caf"@[0] == 'c' && "caf"@[1] == 'a' && "caf"@[2] == 'f',
        "calx"@.len() == 4 && "calx"@[0] == 'c' && "calx"@[1] == 'a' && "calx"@[2] == 'l' && "calx"@[3] == 'x',
{
    reveal_strlit("asf");
    reveal_strlit("ashx");
    reveal_strlit("asi");
    reveal_strlit("asm");
    reveal_strlit("asmx");
    reveal_strlit("aspx");
    reveal_strlit("asr");
    reveal_strlit("asx");
    reveal_strlit("atom");
    reveal_strlit("au");
    reveal_strlit("avi");
    reveal_strlit("axs");
    reveal_strlit("bas");
    reveal_strlit("bcpio");
    reveal_strlit("bin");
    reveal_strlit("bmp");
    reveal_strlit("c");
    reveal_strlit("cab");
    reveal_strlit("caf");
    reveal_strlit("calx");
}

/// The characters of the extensions of table entries 61 to 80
/// (they tell the entries apart).
proof fn lemma_table_extensions_4()
    ensures
        "cat"@.len() == 3 && "cat"@[0] == 'c' && "cat"@[1] == 'a' && "cat"@[2] == 't',
        "cc"@.len() == 2 && "cc"@[0] == 'c' && "cc"@[1] == 'c',
        "cd"@.len() == 2 && "cd"@[0] == 'c' && "cd"@[1] == 'd',
        "cdda"@.len() == 4 && "cdda"@[0] == 'c' && "cdda"@[1] == 'd' && "cdda"@[2] == 'd' && "cdda"@[3] == 'a',
        "cdf"@.len() == 3 && "cdf"@[0] == 'c' && "cdf"@[1] == 'd' && "cdf"@[2] == 'f',
        "cer"@.len() == 3 && "cer"@[0] == 'c' && "cer"@[1] == 'e' && "cer"@[2] == 'r',
        "chm"@.len() == 3 && "chm"@[0] == 'c' && "chm"@[1] == 'h' && "chm"@[2] == 'm',
        "class"@.len() == 5 && "class"@[0] == 'c' && "class"@[1] == 'l' && "class"@[2] == 'a' && "class"@[3] == 's' && "class"@[4] == 's',
        "clp"@.len() == 3 && "clp"@[0] == 'c' && "clp"@[1] == 'l' && "clp"@[2] == 'p',
        "cmx"@.len() == 3 && "cmx"@[0] == 'c' && "cmx"@[1] == 'm' && "cmx"@[2] == 'x',
        "cnf"@.len() == 3 && "cnf"@[0] == 'c' && "cnf"@[1] == 'n' && "cnf"@[2] == 'f',
        "cod"@.len() == 3 && "cod"@[0] == 'c' && "cod"@[1] == 'o' && "cod"@[2] == 'd',
        "config"@.len() == 6 && "config"@[0] == 'c' && "config"@[1] == 'o' && "config"@[2] == 'n' && "config"@[3] == 'f' && "config"@[4] == 'i' && "config"@[5] == 'g',
        "contact"@.len() == 7 && "contact"@[0] == 'c' && "contact"@[1] == 'o' && "contact"@[2] == 'n' && "contact"@[3] == 't' && "contact"@[4] == 'a' && "contact"@[5] == 'c' && "contact"@[6] == 't',
        "coverage"@.len() == 8 && "coverage"@[0] == 'c' && "coverage"@[1] == 'o' && "coverage"@[2] == 'v' && "coverage"@[3] == 'e' && "coverage"@[4] == 'r' && "coverage"@[5] == 'a' && "coverage"@[6] == 'g' && "coverage"@[7] == 'e',
        "cpio"@.len() == 4 && "cpio"@[0] == 'c' && "cpio"@[1] == 'p' && "cpio"@[2] == 'i' && "cpio"@[3] == 'o',
        "cpp"@.len() == 3 && "cpp"@[0] == 'c' && "cpp"@[1] == 'p' && "cpp"@[2] == 'p',
        "crd"@.len() == 3 && "crd"@[0] == 'c' && "crd"@[1] == 'r' && "crd"@[2] == 'd',
        "crl"@.len() == 3 && "crl"@[0] == 'c' && "crl"@[1] == 'r' && "crl"@[2] == 'l',
        "crt"@.len() == 3 && "crt"@[0] == 'c' && "crt"@[1] == 'r' && "crt"@[2] == 't',
{
    reveal_strlit("cat");
    reveal_strlit("cc");
    reveal_strlit("cd");
    reveal_strlit("cdda");
    reveal_strlit("cdf");
    reveal_strlit("cer");
    reveal_strlit("chm");
    reveal_strlit("class");
    reveal_strlit("clp");
    reveal_strlit("cmx");
    reveal_strlit("cnf");
    reveal_strlit("cod");
    reveal_strlit("config");
    reveal_strlit("contact");
    reveal_strlit("coverage");
    reveal_strlit("cpio");
    reveal_strlit("cpp");
    reveal_strlit("crd");
    reveal_strlit("crl");
    reveal_strlit("crt");
}

/// The characters of the extensions of table entries 81 to 100
/// (they tell the entries apart).
proof fn lemma_table_extensions_5()
    ensures
        "cs"@.len() == 2 && "cs"@[0] == 'c' && "cs"@[1] == 's',
        "csdproj"@.len() == 7 && "csdproj"@[0] == 'c' && "csdproj"@[1] == 's' && "csdproj"@[2] == 'd' && "csdproj"@[3] == 'p' && "csdproj"@[4] == 'r' && "csdproj"@[5] == 'o' && "csdproj"@[6] == 'j',
        "csh"@.len() == 3 && "csh"@[0] == 'c' && "csh"@[1] == 's' && "csh"@[2] == 'h',
        "csproj"@.len() == 6 && "csproj"@[0] == 'c' && "csproj"@[1] == 's' && "csproj"@[2] == 'p' && "csproj"@[3] == 'r' && "csproj"@[4] == 'o' && "csproj"@[5] == 'j',
        "css"@.len() == 3 && "css"@[0] == 'c' && "css"@[1] == 's' && "css"@[2] == 's',
        "csv"@.len() == 3 && "csv"@[0] == 'c' && "csv"@[1] == 's' && "csv"@[2] == 'v',
        "cur"@.len() == 3 && "cur"@[0] == 'c' && "cur"@[1] == 'u' && "cur"@[2] == 'r',
        "cxx"@.len() == 3 && "cxx"@[0] == 'c' && "cxx"@[1] == 'x' && "cxx"@[2] == 'x',
        "dat"@.len() == 3 && "dat"@[0] == 'd' && "dat"@[1] == 'a' && "dat"@[2] == 't',
        "datasource"@.len() == 10 && "datasource"@[0] == 'd' && "datasource"@[1] == 'a' && "datasource"@[2] == 't' && "datasource"@[3] == 'a' && "datasource"@[4] == 's' && "datasource"@[5] == 'o' && "datasource"@[6] == 'u' && "datasource"@[7] == 'r' && "datasource"@[8] == 'c' && "datasource"@[9] == 'e',
        "dbproj"@.len() == 6 && "dbproj"@[0] == 'd' && "dbproj"@[1] == 'b' && "dbproj"@[2] == 'p' && "dbproj"@[3] == 'r' && "dbproj"@[4] == 'o' && "dbproj"@[5] == 'j',
        "dcr"@.len() == 3 && "dcr"@[0] == 'd' && "dcr"@[1] == 'c' && "dcr"@[2] == 'r',
        "def"@.len() == 3 && "def"@[0] == 'd' && "def"@[1] == 'e' && "def"@[2] == 'f',
        "deploy"@.len() == 6 && "deploy"@[0] == 'd' && "deploy"@[1] == 'e' && "deploy"@[2] == 'p' && "deploy"@[3] == 'l' && "deploy"@[4] == 'o' && "deploy"@[5] == 'y',
        "der"@.len() == 3 && "der"@[0] == 'd' && "der"@[1] == 'e' && "der"@[2] == 'r',
        "dgml"@.len() == 4 && "dgml"@[0] == 'd' && "dgml"@[1] == 'g' && "dgml"@[2] == 'm' && "dgml"@[3] == 'l',
        "dib"@.len() == 3 && "dib"@[0] == 'd' && "dib"@[1] == 'i' && "dib"@[2] == 'b',
        "dif"@.len() == 3 && "dif"@[0] == 'd' && "dif"@[1] == 'i' && "dif"@[2] == 'f',
        "dir"@.len() == 3 && "dir"@[0] == 'd' && "dir"@[1] == 'i' && "dir"@[2] == 'r',
        "disco"@.len() == 5 && "disco"@[0] == 'd' && "disco"@[1] == 'i' && "disco"@[2] == 's' && "disco"@[3] == 'c' && "disco"@[4] == 'o',
{
    reveal_strlit("cs");
    reveal_strlit("csdproj");
    reveal_strlit("csh");
    reveal_strlit("csproj");
    reveal_strlit("css");
    reveal_strlit("csv");
    reveal_strlit("cur");
    reveal_strlit("cxx");
    reveal_strlit("dat");
    reveal_strlit("datasource");
    reveal_strlit("dbproj");
    reveal_strlit("dcr");
    reveal_strlit("def");
    reveal_strlit("deploy");
    reveal_strlit("der");
    reveal_strlit("dgml");
    reveal_strlit("dib");
    reveal_strlit("dif");
    reveal_strlit("dir");
    reveal_strlit("disco");
}

/// The characters of the extensions of table entries 101 to 120
/// (they tell the entries apart).
proof fn lemma_table_extensions_6()
    ensures
        "dll"@.len() == 3 && "dll"@[0] == 'd' && "dll"@[1] == 'l' && "dll"@[2] == 'l',
        "dll.config"@.len() == 10 && "dll.config"@[0] == 'd' && "dll.config"@[1] == 'l' && "dll.config"@[2] == 'l' && "dll.config"@[3] == '.' && "dll.config"@[4] == 'c' && "dll.config"@[5] == 'o' && "dll.config"@[6] == 'n' && "dll.config"@[7] == 'f' && "dll.config"@[8] == 'i' && "dll.config"@[9] == 'g',
        "dlm"@.len() == 3 && "dlm"@[0] == 'd' && "dlm"@[1] == 'l' && "dlm"@[2] == 'm',
        "doc"@.len() == 3 && "doc"@[0] == 'd' && "doc"@[1] == 'o' && "doc"@[2] == 'c',
        "docm"@.len() == 4 && "docm"@[0] == 'd' && "docm"@[1] == 'o' && "docm"@[2] == 'c' && "docm"@[3] == 'm',
        "docx"@.len() == 4 && "docx"@[0] == 'd' && "docx"@[1] == 'o' && "docx"@[2] == 'c' && "docx"@[3] == 'x',
        "dot"@.len() == 3 && "dot"@[0] == 'd' && "dot"@[1] == 'o' && "dot"@[2] == 't',
        "dotm"@.len() == 4 && "dotm"@[0] == 'd' && "dotm"@[1] == 'o' && "dotm"@[2] == 't' && "dotm"@[3] == 'm',
        "dotx"@.len() == 4 && "dotx"@[0] == 'd' && "dotx"@[1] == 'o' && "dotx"@[2] == 't' && "dotx"@[3] == 'x',
        "dsp"@.len() == 3 && "dsp"@[0] == 'd' && "dsp"@[1] == 's' && "dsp"@[2] == 'p',
        "dsw"@.len() == 3 && "dsw"@[0] == 'd' && "dsw"@[1] == 's' && "dsw"@[2] == 'w',
        "dtd"@.len() == 3 && "dtd"@[0] == 'd' && "dtd"@[1] == 't' && "dtd"@[2] == 'd',
        "dtsConfig"@.len() == 9 && "dtsConfig"@[0] == 'd' && "dtsConfig"@[1] == 't' && "dtsConfig"@[2] == 's' && "dtsConfig"@[3] == 'C' && "dtsConfig"@[4] == 'o' && "dtsConfig"@[5] == 'n' && "dtsConfig"@[6] == 'f' && "dtsConfig"@[7] == 'i' && "dtsConfig"@[8] == 'g',
        "dv"@.len() == 2 && "dv"@[0] == 'd' && "dv"@[1] == 'v',
        "dvi"@.len() == 3 && "dvi"@[0] == 'd' && "dvi"@[1] == 'v' && "dvi"@[2] == 'i',
        "dwf"@.len() == 3 && "dwf"@[0] == 'd' && "dwf"@[1] == 'w' && "dwf"@[2] == 'f',
        "dwp"@.len() == 3 && "dwp"@[0] == 'd' && "dwp"@[1] == 'w' && "dwp"@[2] == 'p',
        "dxr"@.len() == 3 && "dxr"@[0] == 'd' && "dxr"@[1] == 'x' && "dxr"@[2] == 'r',
        "eml"@.len() == 3 && "eml"@[0] == 'e' && "eml"@[1] == 'm' && "eml"@[2] == 'l',
        "emz"@.len() == 3 && "emz"@[0] == 'e' && "emz"@[1] == 'm' && "emz"@[2] == 'z',
{
    reveal_strlit("dll");
    reveal_strlit("dll.config");
    reveal_strlit("dlm");
    reveal_strlit("doc");
    reveal_strlit("docm");
    reveal_strlit("docx");
    reveal_strlit("dot");
    reveal_strlit("dotm");
    reveal_strlit("dotx");
    reveal_strlit("dsp");
    reveal_strlit("dsw");
    reveal_strlit("dtd");
    reveal_strlit("dtsConfig");
    reveal_strlit("dv");
    reveal_strlit("dvi");
    reveal_strlit("dwf");
    reveal_strlit("dwp");
    reveal_strlit("dxr");
    reveal_strlit("eml");
    reveal_strlit("emz");
}

/// The characters of the extensions of table entries 121 to 140
/// (they tell the entries apart).
proof fn lemma_table_extensions_7()
    ensures
        "eot"@.len() == 3 && "eot"@[0] == 'e' && "eot"@[1] == 'o' && "eot"@[2] == 't',
        "eps"@.len() == 3 && "eps"@[0] == 'e' && "eps"@[1] == 'p' && "eps"@[2] == 's',
        "etl"@.len() == 3 && "etl"@[0] == 'e' && "etl"@[1] == 't' && "etl"@[2] == 'l',
        "etx"@.len() == 3 && "etx"@[0] == 'e' && "etx"@[1] == 't' && "etx"@[2] == 'x',
        "evy"@.len() == 3 && "evy"@[0] == 'e' && "evy"@[1] == 'v' && "evy"@[2] == 'y',
        "exe"@.len() == 3 && "exe"@[0] == 'e' && "exe"@[1] == 'x' && "exe"@[2] == 'e',
        "exe.config"@.len() == 10 && "exe.config"@[0] == 'e' && "exe.config"@[1] == 'x' && "exe.config"@[2] == 'e' && "exe.config"@[3] == '.' && "exe.config"@[4] == 'c' && "exe.config"@[5] == 'o' && "exe.config"@[6] == 'n' && "exe.config"@[7] == 'f' && "exe.config"@[8] == 'i' && "exe.config"@[9] == 'g',
        "fdf"@.len() == 3 && "fdf"@[0] == 'f' && "fdf"@[1] == 'd' && "fdf"@[2] == 'f',
        "fif"@.len() == 3 && "fif"@[0] == 'f' && "fif"@[1] == 'i' && "fif"@[2] == 'f',
        "filters"@.len() == 7 && "filters"@[0] == 'f' && "filters"@[1] == 'i' && "filters"@[2] == 'l' && "filters"@[3] == 't' && "filters"@[4] == 'e' && "filters"@[5] == 'r' && "filters"@[6] == 's',
        "fla"@.len() == 3 && "fla"@[0] == 'f' && "fla"@[1] == 'l' && "fla"@[2] == 'a',
        "flr"@.len() == 3 && "flr"@[0] == 'f' && "flr"@[1] == 'l' && "flr"@[2] == 'r',
        "flv"@.len() == 3 && "flv"@[0] == 'f' && "flv"@[1] == 'l' && "flv"@[2] == 'v',
        "fsscript"@.len() == 8 && "fsscript"@[0] == 'f' && "fsscript"@[1] == 's' && "fsscript"@[2] == 's' && "fsscript"@[3] == 'c' && "fsscript"@[4] == 'r' && "fsscript"@[5] == 'i' && "fsscript"@[6] == 'p' && "fsscript"@[7] == 't',
        "fsx"@.len() == 3 && "fsx"@[0] == 'f' && "fsx"@[1] == 's' && "fsx"@[2] == 'x',
        "generictest"@.len() == 11 && "generictest"@[0] == 'g' && "generictest"@[1] == 'e' && "generictest"@[2] == 'n' && "generictest"@[3] == 'e' && "generictest"@[4] == 'r' && "generictest"@[5] == 'i' && "generictest"@[6] == 'c' && "generictest"@[7] == 't' && "generictest"@[8] == 'e' && "generictest"@[9] == 's' && "generictest"@[10] == 't',
        "gif"@.len() == 3 && "gif"@[0] == 'g' && "gif"@[1] == 'i' && "gif"@[2] == 'f',
        "group"@.len() == 5 && "group"@[0] == 'g' && "group"@[1] == 'r' && "group"@[2] == 'o' && "group"@[3] == 'u' && "group"@[4] == 'p',
        "gsm"@.len() == 3 && "gsm"@[0] == 'g' && "gsm"@[1] == 's' && "gsm"@[2] == 'm',
        "gtar"@.len() == 4 && "gtar"@[0] == 'g' && "gtar"@[1] == 't' && "gtar"@[2] == 'a' && "gtar"@[3] == 'r',
{
    reveal_strlit("eot");
    reveal_strlit("eps");
    reveal_strlit("etl");
    reveal_strlit("etx");
    reveal_strlit("evy");
    reveal_strlit("exe");
    reveal_strlit("exe.config");
    reveal_strlit("fdf");
    reveal_strlit("fif");
    reveal_strlit("filters");
    reveal_strlit("fla");
    reveal_strlit("flr");
    reveal_strlit("flv");
    reveal_strlit("fsscript");
    reveal_strlit("fsx");
    reveal_strlit("generictest");
    reveal_strlit("gif");
    reveal_strlit("group");
    reveal_strlit("gsm");
    reveal_strlit("gtar");
}

/// The characters of the extensions of table entries 141 to 160
/// (they tell the entries apart).
proof fn lemma_table_extensions_8()
    ensures
        "gz"@.len() == 2 && "gz"@[0] == 'g' && "gz"@[1] == 'z',
        "h"@.len() == 1 && "h"@[0] == 'h',
        "hdf"@.len() == 3 && "hdf"@[0] == 'h' && "hdf"@[1] == 'd' && "hdf"@[2] == 'f',
        "hdml"@.len() == 4 && "hdml"@[0] == 'h' && "hdml"@[1] == 'd' && "hdml"@[2] == 'm' && "hdml"@[3] == 'l',
        "hhc"@.len() == 3 && "hhc"@[0] == 'h' && "hhc"@[1] == 'h' && "hhc"@[2] == 'c',
        "hhk"@.len() == 3 && "hhk"@[0] == 'h' && "hhk"@[1] == 'h' && "hhk"@[2] == 'k',
        "hhp"@.len() == 3 && "hhp"@[0] == 'h' && "hhp"@[1] == 'h' && "hhp"@[2] == 'p',
        "hlp"@.len() == 3 && "hlp"@[0] == 'h' && "hlp"@[1] == 'l' && "hlp"@[2] == 'p',
        "hpp"@.len() == 3 && "hpp"@[0] == 'h' && "hpp"@[1] == 'p' && "hpp"@[2] == 'p',
        "hqx"@.len() == 3 && "hqx"@[0] == 'h' && "hqx"@[1] == 'q' && "hqx"@[2] == 'x',
        "hta"@.len() == 3 && "hta"@[0] == 'h' && "hta"@[1] == 't' && "hta"@[2] == 'a',
        "htc"@.len() == 3 && "htc"@[0] == 'h' && "htc"@[1] == 't' && "htc"@[2] == 'c',
        "htm"@.len() == 3 && "htm"@[0] == 'h' && "htm"@[1] == 't' && "htm"@[2] == 'm',
        "html"@.len() == 4 && "html"@[0] == 'h' && "html"@[1] == 't' && "html"@[2] == 'm' && "html"@[3] == 'l',
        "htt"@.len() == 3 && "htt"@[0] == 'h' && "htt"@[1] == 't' && "htt"@[2] == 't',
        "hxa"@.len() == 3 && "hxa"@[0] == 'h' && "hxa"@[1] == 'x' && "hxa"@[2] == 'a',
        "hxc"@.len() == 3 && "hxc"@[0] == 'h' && "hxc"@[1] == 'x' && "hxc"@[2] == 'c',
        "hxd"@.len() == 3 && "hxd"@[0] == 'h' && "hxd"@[1] == 'x' && "hxd"@[2] == 'd',
        "hxe"@.len() == 3 && "hxe"@[0] == 'h' && "hxe"@[1] == 'x' && "hxe"@[2] == 'e',
        "hxf"@.len() == 3 && "hxf"@[0] == 'h' && "hxf"@[1] == 'x' && "hxf"@[2] == 'f',
{
    reveal_strlit("gz");
    reveal_strlit("h");
    reveal_strlit("hdf");
    reveal_strlit("hdml");
    reveal_strlit("hhc");
    reveal_strlit("hhk");
    reveal_strlit("hhp");
    reveal_strlit("hlp");
    reveal_strlit("hpp");
    reveal_strlit("hqx");
    reveal_strlit("hta");
    reveal_strlit("htc");
    reveal_strlit("htm");
    reveal_strlit("html");
    reveal_strlit("htt");
    reveal_strlit("hxa");
    reveal_strlit("hxc");
    reveal_strlit("hxd");
    reveal_strlit("hxe");
    reveal_strlit("hxf");
}

/// The characters of the extensions of table entries 161 to 180
/// (they tell the entries apart).
proof fn lemma_table_extensions_9()
    ensures
        "hxh"@.len() == 3 && "hxh"@[0] == 'h' && "hxh"@[1] == 'x' && "hxh"@[2] == 'h',
        "hxi"@.len() == 3 && "hxi"@[0] == 'h' && "hxi"@[1] == 'x' && "hxi"@[2] == 'i',
        "hxk"@.len() == 3 && "hxk"@[0] == 'h' && "hxk"@[1] == 'x' && "hxk"@[2] == 'k',
        "hxq"@.len() == 3 && "hxq"@[0] == 'h' && "hxq"@[1] == 'x' && "hxq"@[2] == 'q',
        "hxr"@.len() == 3 && "hxr"@[0] == 'h' && "hxr"@[1] == 'x' && "hxr"@[2] == 'r',
        "hxs"@.len() == 3 && "hxs"@[0] == 'h' && "hxs"@[1] == 'x' && "hxs"@[2] == 's',
        "hxt"@.len() == 3 && "hxt"@[0] == 'h' && "hxt"@[1] == 'x' && "hxt"@[2] == 't',
        "hxv"@.len() == 3 && "hxv"@[0] == 'h' && "hxv"@[1] == 'x' && "hxv"@[2] == 'v',
        "hxw"@.len() == 3 && "hxw"@[0] == 'h' && "hxw"@[1] == 'x' && "hxw"@[2] == 'w',
        "hxx"@.len() == 3 && "hxx"@[0] == 'h' && "hxx"@[1] == 'x' && "hxx"@[2] == 'x',
        "i"@.len() == 1 && "i"@[0] == 'i',
        "ico"@.len() == 3 && "ico"@[0] == 'i' && "ico"@[1] == 'c' && "ico"@[2] == 'o',
        "ics"@.len() == 3 && "ics"@[0] == 'i' && "ics"@[1] == 'c' && "ics"@[2] == 's',
        "idl"@.len() == 3 && "idl"@[0] == 'i' && "idl"@[1] == 'd' && "idl"@[2] == 'l',
        "ief"@.len() == 3 && "ief"@[0] == 'i' && "ief"@[1] == 'e' && "ief"@[2] == 'f',
        "iii"@.len() == 3 && "iii"@[0] == 'i' && "iii"@[1] == 'i' && "iii"@[2] == 'i',
        "inc"@.len() == 3 && "inc"@[0] == 'i' && "inc"@[1] == 'n' && "inc"@[2] == 'c',
        "inf"@.len() == 3 && "inf"@[0] == 'i' && "inf"@[1] == 'n' && "inf"@[2] == 'f',
        "inl"@.len() == 3 && "inl"@[0] == 'i' && "inl"@[1] == 'n' && "inl"@[2] == 'l',
        "ins"@.len() == 3 && "ins"@[0] == 'i' && "ins"@[1] == 'n' && "ins"@[2] == 's',
{
    reveal_strlit("hxh");
    reveal_strlit("hxi");
    reveal_strlit("hxk");
    reveal_strlit("hxq");
    reveal_strlit("hxr");
    reveal_strlit("hxs");
    reveal_strlit("hxt");
    reveal_strlit("hxv");
    reveal_strlit("hxw");
    reveal_strlit("hxx");
    reveal_strlit("i");
    reveal_strlit("ico");
    reveal_strlit("ics");
    reveal_strlit("idl");
    reveal_strlit("ief");
    reveal_strlit("iii");
    reveal_strlit("inc");
    reveal_strlit("inf");
    reveal_strlit("inl");
    reveal_strlit("ins");
}

/// The characters of the extensions of table entries 181 to 200
/// (they tell the entries apart).
proof fn lemma_table_extensions_10()
    ensures
        "ipa"@.len() == 3 && "ipa"@[0] == 'i' && "ipa"@[1] == 'p' && "ipa"@[2] == 'a',
        "ipg"@.len() == 3 && "ipg"@[0] == 'i' && "ipg"@[1] == 'p' && "ipg"@[2] == 'g',
        "ipproj"@.len() == 6 && "ipproj"@[0] == 'i' && "ipproj"@[1] == 'p' && "ipproj"@[2] == 'p' && "ipproj"@[3] == 'r' && "ipproj"@[4] == 'o' && "ipproj"@[5] == 'j',
        "ipsw"@.len() == 4 && "ipsw"@[0] == 'i' && "ipsw"@[1] == 'p' && "ipsw"@[2] == 's' && "ipsw"@[3] == 'w',
        "iqy"@.len() == 3 && "iqy"@[0] == 'i' && "iqy"@[1] == 'q' && "iqy"@[2] == 'y',
        "isp"@.len() == 3 && "isp"@[0] == 'i' && "isp"@[1] == 's' && "isp"@[2] == 'p',
        "ite"@.len() == 3 && "ite"@[0] == 'i' && "ite"@[1] == 't' && "ite"@[2] == 'e',
        "itlp"@.len() == 4 && "itlp"@[0] == 'i' && "itlp"@[1] == 't' && "itlp"@[2] == 'l' && "itlp"@[3] == 'p',
        "itms"@.len() == 4 && "itms"@[0] == 'i' && "itms"@[1] == 't' && "itms"@[2] == 'm' && "itms"@[3] == 's',
        "itpc"@.len() == 4 && "itpc"@[0] == 'i' && "itpc"@[1] == 't' && "itpc"@[2] == 'p' && "itpc"@[3] == 'c',
        "ivf"@.len() == 3 && "ivf"@[0] == 'i' && "ivf"@[1] == 'v' && "ivf"@[2] == 'f',
        "jar"@.len() == 3 && "jar"@[0] == 'j' && "jar"@[1] == 'a' && "jar"@[2] == 'r',
        "java"@.len() == 4 && "java"@[0] == 'j' && "java"@[1] == 'a' && "java"@[2] == 'v' && "java"@[3] == 'a',
        "jck"@.len() == 3 && "jck"@[0] == 'j' && "jck"@[1] == 'c' && "jck"@[2] == 'k',
        "jcz"@.len() == 3 && "jcz"@[0] == 'j' && "jcz"@[1] == 'c' && "jcz"@[2] == 'z',
        "jfif"@.len() == 4 && "jfif"@[0] == 'j' && "jfif"@[1] == 'f' && "jfif"@[2] == 'i' && "jfif"@[3] == 'f',
        "jnlp"@.len() == 4 && "jnlp"@[0] == 'j' && "jnlp"@[1] == 'n' && "jnlp"@[2] == 'l' && "jnlp"@[3] == 'p',
        "jpb"@.len() == 3 && "jpb"@[0] == 'j' && "jpb"@[1] == 'p' && "jpb"@[2] == 'b',
        "jpe"@.len() == 3 && "jpe"@[0] == 'j' && "jpe"@[1] == 'p' && "jpe"@[2] == 'e',
        "jpeg"@.len() == 4 && "jpeg"@[0] == 'j' && "jpeg"@[1] == 'p' && "jpeg"@[2] == 'e' && "jpeg"@[3] == 'g',
{
    reveal_strlit("ipa");
    reveal_strlit("ipg");
    reveal_strlit("ipproj");
    reveal_strlit("ipsw");
    reveal_strlit("iqy");
    reveal_strlit("isp");
    reveal_strlit("ite");
    reveal_strlit("itlp");
    reveal_strlit("itms");
    reveal_strlit("itpc");
    reveal_strlit("ivf");
    reveal_strlit("jar");
    reveal_strlit("java");
    reveal_strlit("jck");
    reveal_strlit("jcz");
    reveal_strlit("jfif");
    reveal_strlit("jnlp");
    reveal_strlit("jpb");
    reveal_strlit("jpe");
    reveal_strlit("jpeg");
}

/// The characters of the extensions of table entries 201 to 220
/// (they tell the entries apart).
proof fn lemma_table_extensions_11()
    ensures
        "jpg"@.len() == 3 && "jpg"@[0] == 'j' && "jpg"@[1] == 'p' && "jpg"@[2] == 'g',
        "js"@.len() == 2 && "js"@[0] == 'j' && "js"@[1] == 's',
        "json"@.len() == 4 && "json"@[0] == 'j' && "json"@[1] == 's' && "json"@[2] == 'o' && "json"@[3] == 'n',
        "jsx"@.len() == 3 && "jsx"@[0] == 'j' && "jsx"@[1] == 's' && "jsx"@[2] == 'x',
        "jsxbin"@.len() == 6 && "jsxbin"@[0] == 'j' && "jsxbin"@[1] == 's' && "jsxbin"@[2] == 'x' && "jsxbin"@[3] == 'b' && "jsxbin"@[4] == 'i' && "jsxbin"@[5] == 'n',
        "latex"@.len() == 5 && "latex"@[0] == 'l' && "latex"@[1] == 'a' && "latex"@[2] == 't' && "latex"@[3] == 'e' && "latex"@[4] == 'x',
        "library-ms"@.len() == 10 && "library-ms"@[0] == 'l' && "library-ms"@[1] == 'i' && "library-ms"@[2] == 'b' && "library-ms"@[3] == 'r' && "library-ms"@[4] == 'a' && "library-ms"@[5] == 'r' && "library-ms"@[6] == 'y' && "library-ms"@[7] == '-' && "library-ms"@[8] == 'm' && "library-ms"@[9] == 's',
        "lit"@.len() == 3 && "lit"@[0] == 'l' && "lit"@[1] == 'i' && "lit"@[2] == 't',
        "loadtest"@.len() == 8 && "loadtest"@[0] == 'l' && "loadtest"@[1] == 'o' && "loadtest"@[2] == 'a' && "loadtest"@[3] == 'd' && "loadtest"@[4] == 't' && "loadtest"@[5] == 'e' && "loadtest"@[6] == 's' && "loadtest"@[7] == 't',
        "lpk"@.len() == 3 && "lpk"@[0] == 'l' && "lpk"@[1] == 'p' && "lpk"@[2] == 'k',
        "lsf"@.len() == 3 && "lsf"@[0] == 'l' && "lsf"@[1] == 's' && "lsf"@[2] == 'f',
        "lst"@.len() == 3 && "lst"@[0] == 'l' && "lst"@[1] == 's' && "lst"@[2] == 't',
        "lsx"@.len() == 3 && "lsx"@[0] == 'l' && "lsx"@[1] == 's' && "lsx"@[2] == 'x',
        "lzh"@.len() == 3 && "lzh"@[0] == 'l' && "lzh"@[1] == 'z' && "lzh"@[2] == 'h',
        "m13"@.len() == 3 && "m13"@[0] == 'm' && "m13"@[1] == '1' && "m13"@[2] == '3',
        "m14"@.len() == 3 && "m14"@[0] == 'm' && "m14"@[1] == '1' && "m14"@[2] == '4',
        "m1v"@.len() == 3 && "m1v"@[0] == 'm' && "m1v"@[1] == '1' && "m1v"@[2] == 'v',
        "m2t"@.len() == 3 && "m2t"@[0] == 'm' && "m2t"@[1] == '2' && "m2t"@[2] == 't',
        "m2ts"@.len() == 4 && "m2ts"@[0] == 'm' && "m2ts"@[1] == '2' && "m2ts"@[2] == 't' && "m2ts"@[3] == 's',
        "m2v"@.len() == 3 && "m2v"@[0] == 'm' && "m2v"@[1] == '2' && "m2v"@[2] == 'v',
{
    reveal_strlit("jpg");
    reveal_strlit("js");
    reveal_strlit("json");
    reveal_strlit("jsx");
    reveal_strlit("jsxbin");
    reveal_strlit("latex");
    reveal_strlit("library-ms");
    reveal_strlit("lit");
    reveal_strlit("loadtest");
    reveal_strlit("lpk");
    reveal_strlit("lsf");
    reveal_strlit("lst");
    reveal_strlit("lsx");
    reveal_strlit("lzh");
    reveal_strlit("m13");
    reveal_strlit("m14");
    reveal_strlit("m1v");
    reveal_strlit("m2t");
    reveal_strlit("m2ts");
    reveal_strlit("m2v");
}

/// The characters of the extensions of table entries 221 to 240
/// (they tell the entries apart).
proof fn lemma_table_extensions_12()
    ensures
        "m3u"@.len() == 3 && "m3u"@[0] == 'm' && "m3u"@[1] == '3' && "m3u"@[2] == 'u',
        "m3u8"@.len() == 4 && "m3u8"@[0] == 'm' && "m3u8"@[1] == '3' && "m3u8"@[2] == 'u' && "m3u8"@[3] == '8',
        "m4a"@.len() == 3 && "m4a"@[0] == 'm' && "m4a"@[1] == '4' && "m4a"@[2] == 'a',
        "m4b"@.len() == 3 && "m4b"@[0] == 'm' && "m4b"@[1] == '4' && "m4b"@[2] == 'b',
        "m4p"@.len() == 3 && "m4p"@[0] == 'm' && "m4p"@[1] == '4' && "m4p"@[2] == 'p',
        "m4r"@.len() == 3 && "m4r"@[0] == 'm' && "m4r"@[1] == '4' && "m4r"@[2] == 'r',
        "m4v"@.len() == 3 && "m4v"@[0] == 'm' && "m4v"@[1] == '4' && "m4v"@[2] == 'v',
        "mac"@.len() == 3 && "mac"@[0] == 'm' && "mac"@[1] == 'a' && "mac"@[2] == 'c',
        "mak"@.len() == 3 && "mak"@[0] == 'm' && "mak"@[1] == 'a' && "mak"@[2] == 'k',
        "man"@.len() == 3 && "man"@[0] == 'm' && "man"@[1] == 'a' && "man"@[2] == 'n',
        "manifest"@.len() == 8 && "manifest"@[0] == 'm' && "manifest"@[1] == 'a' && "manifest"@[2] == 'n' && "manifest"@[3] == 'i' && "manifest"@[4] == 'f' && "manifest"@[5] == 'e' && "manifest"@[6] == 's' && "manifest"@[7] == 't',
        "map"@.len() == 3 && "map"@[0] == 'm' && "map"@[1] == 'a' && "map"@[2] == 'p',
        "master"@.len() == 6 && "master"@[0] == 'm' && "master"@[1] == 'a' && "master"@[2] == 's' && "master"@[3] == 't' && "master"@[4] == 'e' && "master"@[5] == 'r',
        "mda"@.len() == 3 && "mda"@[0] == 'm' && "mda"@[1] == 'd' && "mda"@[2] == 'a',
        "mdb"@.len() == 3 && "mdb"@[0] == 'm' && "mdb"@[1] == 'd' && "mdb"@[2] == 'b',
        "mde"@.len() == 3 && "mde"@[0] == 'm' && "mde"@[1] == 'd' && "mde"@[2] == 'e',
        "mdp"@.len() == 3 && "mdp"@[0] == 'm' && "mdp"@[1] == 'd' && "mdp"@[2] == 'p',
        "me"@.len() == 2 && "me"@[0] == 'm' && "me"@[1] == 'e',
        "mfp"@.len() == 3 && "mfp"@[0] == 'm' && "mfp"@[1] == 'f' && "mfp"@[2] == 'p',
        "mht"@.len() == 3 && "mht"@[0] == 'm' && "mht"@[1] == 'h' && "mht"@[2] == 't',
{
    reveal_strlit("m3u");
    reveal_strlit("m3u8");
    reveal_strlit("m4a");
    reveal_strlit("m4b");
    reveal_strlit("m4p");
    reveal_strlit("m4r");
    reveal_strlit("m4v");
    reveal_strlit("mac");
    reveal_strlit("mak");
    reveal_strlit("man");
    reveal_strlit("manifest");
    reveal_strlit("map");
    reveal_strlit("master");
    reveal_strlit("mda");
    reveal_strlit("mdb");
    reveal_strlit("mde");
    reveal_strlit("mdp");
    reveal_strlit("me");
    reveal_strlit("mfp");
    reveal_strlit("mht");
}

/// The characters of the extensions of table entries 241 to 260
/// (they tell the entries apart).
proof fn lemma_table_extensions_13()
    ensures
        "mhtml"@.len() == 5 && "mhtml"@[0] == 'm' && "mhtml"@[1] == 'h' && "mhtml"@[2] == 't' && "mhtml"@[3] == 'm' && "mhtml"@[4] == 'l',
        "mid"@.len() == 3 && "mid"@[0] == 'm' && "mid"@[1] == 'i' && "mid"@[2] == 'd',
        "midi"@.len() == 4 && "midi"@[0] == 'm' && "midi"@[1] == 'i' && "midi"@[2] == 'd' && "midi"@[3] == 'i',
        "mix"@.len() == 3 && "mix"@[0] == 'm' && "mix"@[1] == 'i' && "mix"@[2] == 'x',
        "mjs"@.len() == 3 && "mjs"@[0] == 'm' && "mjs"@[1] == 'j' && "mjs"@[2] == 's',
        "mk"@.len() == 2 && "mk"@[0] == 'm' && "mk"@[1] == 'k',
        "mmf"@.len() == 3 && "mmf"@[0] == 'm' && "mmf"@[1] == 'm' && "mmf"@[2] == 'f',
        "mno"@.len() == 3 && "mno"@[0] == 'm' && "mno"@[1] == 'n' && "mno"@[2] == 'o',
        "mny"@.len() == 3 && "mny"@[0] == 'm' && "mny"@[1] == 'n' && "mny"@[2] == 'y',
        "mod"@.len() == 3 && "mod"@[0] == 'm' && "mod"@[1] == 'o' && "mod"@[2] == 'd',
        "mov"@.len() == 3 && "mov"@[0] == 'm' && "mov"@[1] == 'o' && "mov"@[2] == 'v',
        "movie"@.len() == 5 && "movie"@[0] == 'm' && "movie"@[1] == 'o' && "movie"@[2] == 'v' && "movie"@[3] == 'i' && "movie"@[4] == 'e',
        "mp2"@.len() == 3 && "mp2"@[0] == 'm' && "mp2"@[1] == 'p' && "mp2"@[2] == '2',
        "mp2v"@.len() == 4 && "mp2v"@[0] == 'm' && "mp2v"@[1] == 'p' && "mp2v"@[2] == '2' && "mp2v"@[3] == 'v',
        "mp3"@.len() == 3 && "mp3"@[0] == 'm' && "mp3"@[1] == 'p' && "mp3"@[2] == '3',
        "mp4"@.len() == 3 && "mp4"@[0] == 'm' && "mp4"@[1] == 'p' && "mp4"@[2] == '4',
        "mp4v"@.len() == 4 && "mp4v"@[0] == 'm' && "mp4v"@[1] == 'p' && "mp4v"@[2] == '4' && "mp4v"@[3] == 'v',
        "mpa"@.len() == 3 && "mpa"@[0] == 'm' && "mpa"@[1] == 'p' && "mpa"@[2] == 'a',
        "mpe"@.len() == 3 && "mpe"@[0] == 'm' && "mpe"@[1] == 'p' && "mpe"@[2] == 'e',
        "mpeg"@.len() == 4 && "mpeg"@[0] == 'm' && "mpeg"@[1] == 'p' && "mpeg"@[2] == 'e' && "mpeg"@[3] == 'g',
{
    reveal_strlit("mhtml");
    reveal_strlit("mid");
    reveal_strlit("midi");
    reveal_strlit("mix");
    reveal_strlit("mjs");
    reveal_strlit("mk");
    reveal_strlit("mmf");
    reveal_strlit("mno");
    reveal_strlit("mny");
    reveal_strlit("mod");
    reveal_strlit("mov");
    reveal_strlit("movie");
    reveal_strlit("mp2");
    reveal_strlit("mp2v");
    reveal_strlit("mp3");
    reveal_strlit("mp4");
    reveal_strlit("mp4v");
    reveal_strlit("mpa");
    reveal_strlit("mpe");
    reveal_strlit("mpeg");
}

/// The characters of the extensions of table entries 261 to 280
/// (they tell the entries apart).
proof fn lemma_table_extensions_14()
    ensures
        "mpf"@.len() == 3 && "mpf"@[0] == 'm' && "mpf"@[1] == 'p' && "mpf"@[2] == 'f',
        "mpg"@.len() == 3 && "mpg"@[0] == 'm' && "mpg"@[1] == 'p' && "mpg"@[2] == 'g',
        "mpp"@.len() == 3 && "mpp"@[0] == 'm' && "mpp"@[1] == 'p' && "mpp"@[2] == 'p',
        "mpv2"@.len() == 4 && "mpv2"@[0] == 'm' && "mpv2"@[1] == 'p' && "mpv2"@[2] == 'v' && "mpv2"@[3] == '2',
        "mqv"@.len() == 3 && "mqv"@[0] == 'm' && "mqv"@[1] == 'q' && "mqv"@[2] == 'v',
        "ms"@.len() == 2 && "ms"@[0] == 'm' && "ms"@[1] == 's',
        "msi"@.len() == 3 && "msi"@[0] == 'm' && "msi"@[1] == 's' && "msi"@[2] == 'i',
        "mso"@.len() == 3 && "mso"@[0] == 'm' && "mso"@[1] == 's' && "mso"@[2] == 'o',
        "mts"@.len() == 3 && "mts"@[0] == 'm' && "mts"@[1] == 't' && "mts"@[2] == 's',
        "mtx"@.len() == 3 && "mtx"@[0] == 'm' && "mtx"@[1] == 't' && "mtx"@[2] == 'x',
        "mvb"@.len() == 3 && "mvb"@[0] == 'm' && "mvb"@[1] == 'v' && "mvb"@[2] == 'b',
        "mvc"@.len() == 3 && "mvc"@[0] == 'm' && "mvc"@[1] == 'v' && "mvc"@[2] == 'c',
        "mxp"@.len() == 3 && "mxp"@[0] == 'm' && "mxp"@[1] == 'x' && "mxp"@[2] == 'p',
        "nc"@.len() == 2 && "nc"@[0] == 'n' && "nc"@[1] == 'c',
        "nsc"@.len() == 3 && "nsc"@[0] == 'n' && "nsc"@[1] == 's' && "nsc"@[2] == 'c',
        "nws"@.len() == 3 && "nws"@[0] == 'n' && "nws"@[1] == 'w' && "nws"@[2] == 's',
        "ocx"@.len() == 3 && "ocx"@[0] == 'o' && "ocx"@[1] == 'c' && "ocx"@[2] == 'x',
        "oda"@.len() == 3 && "oda"@[0] == 'o' && "oda"@[1] == 'd' && "oda"@[2] == 'a',
        "odc"@.len() == 3 && "odc"@[0] == 'o' && "odc"@[1] == 'd' && "odc"@[2] == 'c',
        "odh"@.len() == 3 && "odh"@[0] == 'o' && "odh"@[1] == 'd' && "odh"@[2] == 'h',
{
    reveal_strlit("mpf");
    reveal_strlit("mpg");
    reveal_strlit("mpp");
    reveal_strlit("mpv2");
    reveal_strlit("mqv");
    reveal_strlit("ms");
    reveal_strlit("msi");
    reveal_strlit("mso");
    reveal_strlit("mts");
    reveal_strlit("mtx");
    reveal_strlit("mvb");
    reveal_strlit("mvc");
    reveal_strlit("mxp");
    reveal_strlit("nc");
    reveal_strlit("nsc");
    reveal_strlit("nws");
    reveal_strlit("ocx");
    reveal_strlit("oda");
    reveal_strlit("odc");
    reveal_strlit("odh");
}

/// The characters of the extensions of table entries 281 to 300
/// (they tell the entries apart).
proof fn lemma_table_extensions_15()
    ensures
        "odl"@.len() == 3 && "odl"@[0] == 'o' && "odl"@[1] == 'd' && "odl"@[2] == 'l',
        "odp"@.len() == 3 && "odp"@[0] == 'o' && "odp"@[1] == 'd' && "odp"@[2] == 'p',
        "ods"@.len() == 3 && "ods"@[0] == 'o' && "ods"@[1] == 'd' && "ods"@[2] == 's',
        "odt"@.len() == 3 && "odt"@[0] == 'o' && "odt"@[1] == 'd' && "odt"@[2] == 't',
        "ogg"@.len() == 3 && "ogg"@[0] == 'o' && "ogg"@[1] == 'g' && "ogg"@[2] == 'g',
        "one"@.len() == 3 && "one"@[0] == 'o' && "one"@[1] == 'n' && "one"@[2] == 'e',
        "onea"@.len() == 4 && "onea"@[0] == 'o' && "onea"@[1] == 'n' && "onea"@[2] == 'e' && "onea"@[3] == 'a',
        "onepkg"@.len() == 6 && "onepkg"@[0] == 'o' && "onepkg"@[1] == 'n' && "onepkg"@[2] == 'e' && "onepkg"@[3] == 'p' && "onepkg"@[4] == 'k' && "onepkg"@[5] == 'g',
        "onetmp"@.len() == 6 && "onetmp"@[0] == 'o' && "onetmp"@[1] == 'n' && "onetmp"@[2] == 'e' && "onetmp"@[3] == 't' && "onetmp"@[4] == 'm' && "onetmp"@[5] == 'p',
        "onetoc"@.len() == 6 && "onetoc"@[0] == 'o' && "onetoc"@[1] == 'n' && "onetoc"@[2] == 'e' && "onetoc"@[3] == 't' && "onetoc"@[4] == 'o' && "onetoc"@[5] == 'c',
        "onetoc2"@.len() == 7 && "onetoc2"@[0] == 'o' && "onetoc2"@[1] == 'n' && "onetoc2"@[2] == 'e' && "onetoc2"@[3] == 't' && "onetoc2"@[4] == 'o' && "onetoc2"@[5] == 'c' && "onetoc2"@[6] == '2',
        "orderedtest"@.len() == 11 && "orderedtest"@[0] == 'o' && "orderedtest"@[1] == 'r' && "orderedtest"@[2] == 'd' && "orderedtest"@[3] == 'e' && "orderedtest"@[4] == 'r' && "orderedtest"@[5] == 'e' && "orderedtest"@[6] == 'd' && "orderedtest"@[7] == 't' && "orderedtest"@[8] == 'e' && "orderedtest"@[9] == 's' && "orderedtest"@[10] == 't',
        "osdx"@.len() == 4 && "osdx"@[0] == 'o' && "osdx"@[1] == 's' && "osdx"@[2] == 'd' && "osdx"@[3] == 'x',
        "otf"@.len() == 3 && "otf"@[0] == 'o' && "otf"@[1] == 't' && "otf"@[2] == 'f',
        "p10"@.len() == 3 && "p10"@[0] == 'p' && "p10"@[1] == '1' && "p10"@[2] == '0',
        "p12"@.len() == 3 && "p12"@[0] == 'p' && "p12"@[1] == '1' && "p12"@[2] == '2',
        "p7b"@.len() == 3 && "p7b"@[0] == 'p' && "p7b"@[1] == '7' && "p7b"@[2] == 'b',
        "p7c"@.len() == 3 && "p7c"@[0] == 'p' && "p7c"@[1] == '7' && "p7c"@[2] == 'c',
        "p7m"@.len() == 3 && "p7m"@[0] == 'p' && "p7m"@[1] == '7' && "p7m"@[2] == 'm',
        "p7r"@.len() == 3 && "p7r"@[0] == 'p' && "p7r"@[1] == '7' && "p7r"@[2] == 'r',
{
    reveal_strlit("odl");
    reveal_strlit("odp");
    reveal_strlit("ods");
    reveal_strlit("odt");
    reveal_strlit("ogg");
    reveal_strlit("one");
    reveal_strlit("onea");
    reveal_strlit("onepkg");
    reveal_strlit("onetmp");
    reveal_strlit("onetoc");
    reveal_strlit("onetoc2");
    reveal_strlit("orderedtest");
    reveal_strlit("osdx");
    reveal_strlit("otf");
    reveal_strlit("p10");
    reveal_strlit("p12");
    reveal_strlit("p7b");
    reveal_strlit("p7c");
    reveal_strlit("p7m");
    reveal_strlit("p7r");
}

/// The characters of the extensions of table entries 301 to 320
/// (they tell the entries apart).
proof fn lemma_table_extensions_16()
    ensures
        "p7s"@.len() == 3 && "p7s"@[0] == 'p' && "p7s"@[1] == '7' && "p7s"@[2] == 's',
        "pbm"@.len() == 3 && "pbm"@[0] == 'p' && "pbm"@[1] == 'b' && "pbm"@[2] == 'm',
        "pcast"@.len() == 5 && "pcast"@[0] == 'p' && "pcast"@[1] == 'c' && "pcast"@[2] == 'a' && "pcast"@[3] == 's' && "pcast"@[4] == 't',
        "pct"@.len() == 3 && "pct"@[0] == 'p' && "pct"@[1] == 'c' && "pct"@[2] == 't',
        "pcx"@.len() == 3 && "pcx"@[0] == 'p' && "pcx"@[1] == 'c' && "pcx"@[2] == 'x',
        "pcz"@.len() == 3 && "pcz"@[0] == 'p' && "pcz"@[1] == 'c' && "pcz"@[2] == 'z',
        "pdf"@.len() == 3 && "pdf"@[0] == 'p' && "pdf"@[1] == 'd' && "pdf"@[2] == 'f',
        "pfb"@.len() == 3 && "pfb"@[0] == 'p' && "pfb"@[1] == 'f' && "pfb"@[2] == 'b',
        "pfm"@.len() == 3 && "pfm"@[0] == 'p' && "pfm"@[1] == 'f' && "pfm"@[2] == 'm',
        "pfx"@.len() == 3 && "pfx"@[0] == 'p' && "pfx"@[1] == 'f' && "pfx"@[2] == 'x',
        "pgm"@.len() == 3 && "pgm"@[0] == 'p' && "pgm"@[1] == 'g' && "pgm"@[2] == 'm',
        "pic"@.len() == 3 && "pic"@[0] == 'p' && "pic"@[1] == 'i' && "pic"@[2] == 'c',
        "pict"@.len() == 4 && "pict"@[0] == 'p' && "pict"@[1] == 'i' && "pict"@[2] == 'c' && "pict"@[3] == 't',
        "pkgdef"@.len() == 6 && "pkgdef"@[0] == 'p' && "pkgdef"@[1] == 'k' && "pkgdef"@[2] == 'g' && "pkgdef"@[3] == 'd' && "pkgdef"@[4] == 'e' && "pkgdef"@[5] == 'f',
        "pkgundef"@.len() == 8 && "pkgundef"@[0] == 'p' && "pkgundef"@[1] == 'k' && "pkgundef"@[2] == 'g' && "pkgundef"@[3] == 'u' && "pkgundef"@[4] == 'n' && "pkgundef"@[5] == 'd' && "pkgundef"@[6] == 'e' && "pkgundef"@[7] == 'f',
        "pko"@.len() == 3 && "pko"@[0] == 'p' && "pko"@[1] == 'k' && "pko"@[2] == 'o',
        "pls"@.len() == 3 && "pls"@[0] == 'p' && "pls"@[1] == 'l' && "pls"@[2] == 's',
        "pma"@.len() == 3 && "pma"@[0] == 'p' && "pma"@[1] == 'm' && "pma"@[2] == 'a',
        "pmc"@.len() == 3 && "pmc"@[0] == 'p' && "pmc"@[1] == 'm' && "pmc"@[2] == 'c',
        "pml"@.len() == 3 && "pml"@[0] == 'p' && "pml"@[1] == 'm' && "pml"@[2] == 'l',
{
    reveal_strlit("p7s");
    reveal_strlit("pbm");
    reveal_strlit("pcast");
    reveal_strlit("pct");
    reveal_strlit("pcx");
    reveal_strlit("pcz");
    reveal_strlit("pdf");
    reveal_strlit("pfb");
    reveal_strlit("pfm");
    reveal_strlit("pfx");
    reveal_strlit("pgm");
    reveal_strlit("pic");
    reveal_strlit("pict");
    reveal_strlit("pkgdef");
    reveal_strlit("pkgundef");
    reveal_strlit("pko");
    reveal_strlit("pls");
    reveal_strlit("pma");
    reveal_strlit("pmc");
    reveal_strlit("pml");
}

/// The characters of the extensions of table entries 321 to 340
/// (they tell the entries apart).
proof fn lemma_table_extensions_17()
    ensures
        "pmr"@.len() == 3 && "pmr"@[0] == 'p' && "pmr"@[1] == 'm' && "pmr"@[2] == 'r',
        "pmw"@.len() == 3 && "pmw"@[0] == 'p' && "pmw"@[1] == 'm' && "pmw"@[2] == 'w',
        "png"@.len() == 3 && "png"@[0] == 'p' && "png"@[1] == 'n' && "png"@[2] == 'g',
        "pnm"@.len() == 3 && "pnm"@[0] == 'p' && "pnm"@[1] == 'n' && "pnm"@[2] == 'm',
        "pnt"@.len() == 3 && "pnt"@[0] == 'p' && "pnt"@[1] == 'n' && "pnt"@[2] == 't',
        "pntg"@.len() == 4 && "pntg"@[0] == 'p' && "pntg"@[1] == 'n' && "pntg"@[2] == 't' && "pntg"@[3] == 'g',
        "pnz"@.len() == 3 && "pnz"@[0] == 'p' && "pnz"@[1] == 'n' && "pnz"@[2] == 'z',
        "pot"@.len() == 3 && "pot"@[0] == 'p' && "pot"@[1] == 'o' && "pot"@[2] == 't',
        "potm"@.len() == 4 && "potm"@[0] == 'p' && "potm"@[1] == 'o' && "potm"@[2] == 't' && "potm"@[3] == 'm',
        "potx"@.len() == 4 && "potx"@[0] == 'p' && "potx"@[1] == 'o' && "potx"@[2] == 't' && "potx"@[3] == 'x',
        "ppa"@.len() == 3 && "ppa"@[0] == 'p' && "ppa"@[1] == 'p' && "ppa"@[2] == 'a',
        "ppam"@.len() == 4 && "ppam"@[0] == 'p' && "ppam"@[1] == 'p' && "ppam"@[2] == 'a' && "ppam"@[3] == 'm',
        "ppm"@.len() == 3 && "ppm"@[0] == 'p' && "ppm"@[1] == 'p' && "ppm"@[2] == 'm',
        "pps"@.len() == 3 && "pps"@[0] == 'p' && "pps"@[1] == 'p' && "pps"@[2] == 's',
        "ppsm"@.len() == 4 && "ppsm"@[0] == 'p' && "ppsm"@[1] == 'p' && "ppsm"@[2] == 's' && "ppsm"@[3] == 'm',
        "ppsx"@.len() == 4 && "ppsx"@[0] == 'p' && "ppsx"@[1] == 'p' && "ppsx"@[2] == 's' && "ppsx"@[3] == 'x',
        "ppt"@.len() == 3 && "ppt"@[0] == 'p' && "ppt"@[1] == 'p' && "ppt"@[2] == 't',
        "pptm"@.len() == 4 && "pptm"@[0] == 'p' && "pptm"@[1] == 'p' && "pptm"@[2] == 't' && "pptm"@[3] == 'm',
        "pptx"@.len() == 4 && "pptx"@[0] == 'p' && "pptx"@[1] == 'p' && "pptx"@[2] == 't' && "pptx"@[3] == 'x',
        "prf"@.len() == 3 && "prf"@[0] == 'p' && "prf"@[1] == 'r' && "prf"@[2] == 'f',
{
    reveal_strlit("pmr");
    reveal_strlit("pmw");
    reveal_strlit("png");
    reveal_strlit("pnm");
    reveal_strlit("pnt");
    reveal_strlit("pntg");
    reveal_strlit("pnz");
    reveal_strlit("pot");
    reveal_strlit("potm");
    reveal_strlit("potx");
    reveal_strlit("ppa");
    reveal_strlit("ppam");
    reveal_strlit("ppm");
    reveal_strlit("pps");
    reveal_strlit("ppsm");
    reveal_strlit("ppsx");
    reveal_strlit("ppt");
    reveal_strlit("pptm");
    reveal_strlit("pptx");
    reveal_strlit("prf");
}

/// The characters of the extensions of table entries 341 to 360
/// (they tell the entries apart).
proof fn lemma_table_extensions_18()
    ensures
        "prm"@.len() == 3 && "prm"@[0] == 'p' && "prm"@[1] == 'r' && "prm"@[2] == 'm',
        "prx"@.len() == 3 && "prx"@[0] == 'p' && "prx"@[1] == 'r' && "prx"@[2] == 'x',
        "ps"@.len() == 2 && "ps"@[0] == 'p' && "ps"@[1] == 's',
        "psc1"@.len() == 4 && "psc1"@[0] == 'p' && "psc1"@[1] == 's' && "psc1"@[2] == 'c' && "psc1"@[3] == '1',
        "psd"@.len() == 3 && "psd"@[0] == 'p' && "psd"@[1] == 's' && "psd"@[2] == 'd',
        "psess"@.len() == 5 && "psess"@[0] == 'p' && "psess"@[1] == 's' && "psess"@[2] == 'e' && "psess"@[3] == 's' && "psess"@[4] == 's',
        "psm"@.len() == 3 && "psm"@[0] == 'p' && "psm"@[1] == 's' && "psm"@[2] == 'm',
        "psp"@.len() == 3 && "psp"@[0] == 'p' && "psp"@[1] == 's' && "psp"@[2] == 'p',
        "pub"@.len() == 3 && "pub"@[0] == 'p' && "pub"@[1] == 'u' && "pub"@[2] == 'b',
        "pwz"@.len() == 3 && "pwz"@[0] == 'p' && "pwz"@[1] == 'w' && "pwz"@[2] == 'z',
        "qht"@.len() == 3 && "qht"@[0] == 'q' && "qht"@[1] == 'h' && "qht"@[2] == 't',
        "qhtm"@.len() == 4 && "qhtm"@[0] == 'q' && "qhtm"@[1] == 'h' && "qhtm"@[2] == 't' && "qhtm"@[3] == 'm',
        "qt"@.len() == 2 && "qt"@[0] == 'q' && "qt"@[1] == 't',
        "qti"@.len() == 3 && "qti"@[0] == 'q' && "qti"@[1] == 't' && "qti"@[2] == 'i',
        "qtif"@.len() == 4 && "qtif"@[0] == 'q' && "qtif"@[1] == 't' && "qtif"@[2] == 'i' && "qtif"@[3] == 'f',
        "qtl"@.len() == 3 && "qtl"@[0] == 'q' && "qtl"@[1] == 't' && "qtl"@[2] == 'l',
        "qxd"@.len() == 3 && "qxd"@[0] == 'q' && "qxd"@[1] == 'x' && "qxd"@[2] == 'd',
        "ra"@.len() == 2 && "ra"@[0] == 'r' && "ra"@[1] == 'a',
        "ram"@.len() == 3 && "ram"@[0] == 'r' && "ram"@[1] == 'a' && "ram"@[2] == 'm',
        "rar"@.len() == 3 && "rar"@[0] == 'r' && "rar"@[1] == 'a' && "rar"@[2] == 'r',
{
    reveal_strlit("prm");
    reveal_strlit("prx");
    reveal_strlit("ps");
    reveal_strlit("psc1");
    reveal_strlit("psd");
    reveal_strlit("psess");
    reveal_strlit("psm");
    reveal_strlit("psp");
    reveal_strlit("pub");
    reveal_strlit("pwz");
    reveal_strlit("qht");
    reveal_strlit("qhtm");
    reveal_strlit("qt");
    reveal_strlit("qti");
    reveal_strlit("qtif");
    reveal_strlit("qtl");
    reveal_strlit("qxd");
    reveal_strlit("ra");
    reveal_strlit("ram");
    reveal_strlit("rar");
}

/// The characters of the extensions of table entries 361 to 380
/// (they tell the entries apart).
proof fn lemma_table_extensions_19()
    ensures
        "ras"@.len() == 3 && "ras"@[0] == 'r' && "ras"@[1] == 'a' && "ras"@[2] == 's',
        "rat"@.len() == 3 && "rat"@[0] == 'r' && "rat"@[1] == 'a' && "rat"@[2] == 't',
        "rc"@.len() == 2 && "rc"@[0] == 'r' && "rc"@[1] == 'c',
        "rc2"@.len() == 3 && "rc2"@[0] == 'r' && "rc2"@[1] == 'c' && "rc2"@[2] == '2',
        "rct"@.len() == 3 && "rct"@[0] == 'r' && "rct"@[1] == 'c' && "rct"@[2] == 't',
        "rdlc"@.len() == 4 && "rdlc"@[0] == 'r' && "rdlc"@[1] == 'd' && "rdlc"@[2] == 'l' && "rdlc"@[3] == 'c',
        "resx"@.len() == 4 && "resx"@[0] == 'r' && "resx"@[1] == 'e' && "resx"@[2] == 's' && "resx"@[3] == 'x',
        "rf"@.len() == 2 && "rf"@[0] == 'r' && "rf"@[1] == 'f',
        "rgb"@.len() == 3 && "rgb"@[0] == 'r' && "rgb"@[1] == 'g' && "rgb"@[2] == 'b',
        "rgs"@.len() == 3 && "rgs"@[0] == 'r' && "rgs"@[1] == 'g' && "rgs"@[2] == 's',
        "rm"@.len() == 2 && "rm"@[0] == 'r' && "rm"@[1] == 'm',
        "rmi"@.len() == 3 && "rmi"@[0] == 'r' && "rmi"@[1] == 'm' && "rmi"@[2] == 'i',
        "rmp"@.len() == 3 && "rmp"@[0] == 'r' && "rmp"@[1] == 'm' && "rmp"@[2] == 'p',
        "roff"@.len() == 4 && "roff"@[0] == 'r' && "roff"@[1] == 'o' && "roff"@[2] == 'f' && "roff"@[3] == 'f',
        "rpm"@.len() == 3 && "rpm"@[0] == 'r' && "rpm"@[1] == 'p' && "rpm"@[2] == 'm',
        "rqy"@.len() == 3 && "rqy"@[0] == 'r' && "rqy"@[1] == 'q' && "rqy"@[2] == 'y',
        "rtf"@.len() == 3 && "rtf"@[0] == 'r' && "rtf"@[1] == 't' && "rtf"@[2] == 'f',
        "rtx"@.len() == 3 && "rtx"@[0] == 'r' && "rtx"@[1] == 't' && "rtx"@[2] == 'x',
        "ruleset"@.len() == 7 && "ruleset"@[0] == 'r' && "ruleset"@[1] == 'u' && "ruleset"@[2] == 'l' && "ruleset"@[3] == 'e' && "ruleset"@[4] == 's' && "ruleset"@[5] == 'e' && "ruleset"@[6] == 't',
        "s"@.len() == 1 && "s"@[0] == 's',
{
    reveal_strlit("ras");
    reveal_strlit("rat");
    reveal_strlit("rc");
    reveal_strlit("rc2");
    reveal_strlit("rct");
    reveal_strlit("rdlc");
    reveal_strlit("resx");
    reveal_strlit("rf");
    reveal_strlit("rgb");
    reveal_strlit("rgs");
    reveal_strlit("rm");
    reveal_strlit("rmi");
    reveal_strlit("rmp");
    reveal_strlit("roff");
    reveal_strlit("rpm");
    reveal_strlit("rqy");
    reveal_strlit("rtf");
    reveal_strlit("rtx");
    reveal_strlit("ruleset");
    reveal_strlit("s");
}

/// The characters of the extensions of table entries 381 to 400
/// (they tell the entries apart).
proof fn lemma_table_extensions_20()
    ensures
        "safariextz"@.len() == 10 && "safariextz"@[0] == 's' && "safariextz"@[1] == 'a' && "safariextz"@[2] == 'f' && "safariextz"@[3] == 'a' && "safariextz"@[4] == 'r' && "safariextz"@[5] == 'i' && "safariextz"@[6] == 'e' && "safariextz"@[7] == 'x' && "safariextz"@[8] == 't' && "safariextz"@[9] == 'z',
        "scd"@.len() == 3 && "scd"@[0] == 's' && "scd"@[1] == 'c' && "scd"@[2] == 'd',
        "sct"@.len() == 3 && "sct"@[0] == 's' && "sct"@[1] == 'c' && "sct"@[2] == 't',
        "sd2"@.len() == 3 && "sd2"@[0] == 's' && "sd2"@[1] == 'd' && "sd2"@[2] == '2',
        "sdp"@.len() == 3 && "sdp"@[0] == 's' && "sdp"@[1] == 'd' && "sdp"@[2] == 'p',
        "sea"@.len() == 3 && "sea"@[0] == 's' && "sea"@[1] == 'e' && "sea"@[2] == 'a',
        "searchConnector-ms"@.len() == 18 && "searchConnector-ms"@[0] == 's' && "searchConnector-ms"@[1] == 'e' && "searchConnector-ms"@[2] == 'a' && "searchConnector-ms"@[3] == 'r' && "searchConnector-ms"@[4] == 'c' && "searchConnector-ms"@[5] == 'h' && "searchConnector-ms"@[6] == 'C' && "searchConnector-ms"@[7] == 'o' && "searchConnector-ms"@[8] == 'n' && "searchConnector-ms"@[9] == 'n' && "searchConnector-ms"@[10] == 'e' && "searchConnector-ms"@[11] == 'c' && "searchConnector-ms"@[12] == 't' && "searchConnector-ms"@[13] == 'o' && "searchConnector-ms"@[14] == 'r' && "searchConnector-ms"@[15] == '-' && "searchConnector-ms"@[16] == 'm' && "searchConnector-ms"@[17] == 's',
        "setpay"@.len() == 6 && "setpay"@[0] == 's' && "setpay"@[1] == 'e' && "setpay"@[2] == 't' && "setpay"@[3] == 'p' && "setpay"@[4] == 'a' && "setpay"@[5] == 'y',
        "setreg"@.len() == 6 && "setreg"@[0] == 's' && "setreg"@[1] == 'e' && "setreg"@[2] == 't' && "setreg"@[3] == 'r' && "setreg"@[4] == 'e' && "setreg"@[5] == 'g',
        "settings"@.len() == 8 && "settings"@[0] == 's' && "settings"@[1] == 'e' && "settings"@[2] == 't' && "settings"@[3] == 't' && "settings"@[4] == 'i' && "settings"@[5] == 'n' && "settings"@[6] == 'g' && "settings"@[7] == 's',
        "sfnt"@.len() == 4 && "sfnt"@[0] == 's' && "sfnt"@[1] == 'f' && "sfnt"@[2] == 'n' && "sfnt"@[3] == 't',
        "sgimb"@.len() == 5 && "sgimb"@[0] == 's' && "sgimb"@[1] == 'g' && "sgimb"@[2] == 'i' && "sgimb"@[3] == 'm' && "sgimb"@[4] == 'b',
        "sgml"@.len() == 4 && "sgml"@[0] == 's' && "sgml"@[1] == 'g' && "sgml"@[2] == 'm' && "sgml"@[3] == 'l',
        "sh"@.len() == 2 && "sh"@[0] == 's' && "sh"@[1] == 'h',
        "shar"@.len() == 4 && "shar"@[0] == 's' && "shar"@[1] == 'h' && "shar"@[2] == 'a' && "shar"@[3] == 'r',
        "shtml"@.len() == 5 && "shtml"@[0] == 's' && "shtml"@[1] == 'h' && "shtml"@[2] == 't' && "shtml"@[3] == 'm' && "shtml"@[4] == 'l',
        "sit"@.len() == 3 && "sit"@[0] == 's' && "sit"@[1] == 'i' && "sit"@[2] == 't',
        "sitemap"@.len() == 7 && "sitemap"@[0] == 's' && "sitemap"@[1] == 'i' && "sitemap"@[2] == 't' && "sitemap"@[3] == 'e' && "sitemap"@[4] == 'm' && "sitemap"@[5] == 'a' && "sitemap"@[6] == 'p',
        "skin"@.len() == 4 && "skin"@[0] == 's' && "skin"@[1] == 'k' && "skin"@[2] == 'i' && "skin"@[3] == 'n',
        "sldm"@.len() == 4 && "sldm"@[0] == 's' && "sldm"@[1] == 'l' && "sldm"@[2] == 'd' && "sldm"@[3] == 'm',
{
    reveal_strlit("safariextz");
    reveal_strlit("scd");
    reveal_strlit("sct");
    reveal_strlit("sd2");
    reveal_strlit("sdp");
    reveal_strlit("sea");
    reveal_strlit("searchConnector-ms");
    reveal_strlit("setpay");
    reveal_strlit("setreg");
    reveal_strlit("settings");
    reveal_strlit("sfnt");
    reveal_strlit("sgimb");
    reveal_strlit("sgml");
    reveal_strlit("sh");
    reveal_strlit("shar");
    reveal_strlit("shtml");
    reveal_strlit("sit");
    reveal_strlit("sitemap");
    reveal_strlit("skin");
    reveal_strlit("sldm");
}

/// The characters of the extensions of table entries 401 to 420
/// (they tell the entries apart).
proof fn lemma_table_extensions_21()
    ensures
        "sldx"@.len() == 4 && "sldx"@[0] == 's' && "sldx"@[1] == 'l' && "sldx"@[2] == 'd' && "sldx"@[3] == 'x',
        "slk"@.len() == 3 && "slk"@[0] == 's' && "slk"@[1] == 'l' && "slk"@[2] == 'k',
        "sln"@.len() == 3 && "sln"@[0] == 's' && "sln"@[1] == 'l' && "sln"@[2] == 'n',
        "slupkg-ms"@.len() == 9 && "slupkg-ms"@[0] == 's' && "slupkg-ms"@[1] == 'l' && "slupkg-ms"@[2] == 'u' && "slupkg-ms"@[3] == 'p' && "slupkg-ms"@[4] == 'k' && "slupkg-ms"@[5] == 'g' && "slupkg-ms"@[6] == '-' && "slupkg-ms"@[7] == 'm' && "slupkg-ms"@[8] == 's',
        "smd"@.len() == 3 && "smd"@[0] == 's' && "smd"@[1] == 'm' && "smd"@[2] == 'd',
        "smi"@.len() == 3 && "smi"@[0] == 's' && "smi"@[1] == 'm' && "smi"@[2] == 'i',
        "smx"@.len() == 3 && "smx"@[0] == 's' && "smx"@[1] == 'm' && "smx"@[2] == 'x',
        "smz"@.len() == 3 && "smz"@[0] == 's' && "smz"@[1] == 'm' && "smz"@[2] == 'z',
        "snd"@.len() == 3 && "snd"@[0] == 's' && "snd"@[1] == 'n' && "snd"@[2] == 'd',
        "snippet"@.len() == 7 && "snippet"@[0] == 's' && "snippet"@[1] == 'n' && "snippet"@[2] == 'i' && "snippet"@[3] == 'p' && "snippet"@[4] == 'p' && "snippet"@[5] == 'e' && "snippet"@[6] == 't',
        "snp"@.len() == 3 && "snp"@[0] == 's' && "snp"@[1] == 'n' && "snp"@[2] == 'p',
        "sol"@.len() == 3 && "sol"@[0] == 's' && "sol"@[1] == 'o' && "sol"@[2] == 'l',
        "sor"@.len() == 3 && "sor"@[0] == 's' && "sor"@[1] == 'o' && "sor"@[2] == 'r',
        "spc"@.len() == 3 && "spc"@[0] == 's' && "spc"@[1] == 'p' && "spc"@[2] == 'c',
        "spl"@.len() == 3 && "spl"@[0] == 's' && "spl"@[1] == 'p' && "spl"@[2] == 'l',
        "src"@.len() == 3 && "src"@[0] == 's' && "src"@[1] == 'r' && "src"@[2] == 'c',
        "srf"@.len() == 3 && "srf"@[0] == 's' && "srf"@[1] == 'r' && "srf"@[2] == 'f',
        "ssisdeploymentmanifest"@.len() == 22 && "ssisdeploymentmanifest"@[0] == 's' && "ssisdeploymentmanifest"@[1] == 's' && "ssisdeploymentmanifest"@[2] == 'i' && "ssisdeploymentmanifest"@[3] == 's' && "ssisdeploymentmanifest"@[4] == 'd' && "ssisdeploymentmanifest"@[5] == 'e' && "ssisdeploymentmanifest"@[6] == 'p' && "ssisdeploymentmanifest"@[7] == 'l' && "ssisdeploymentmanifest"@[8] == 'o' && "ssisdeploymentmanifest"@[9] == 'y' && "ssisdeploymentmanifest"@[10] == 'm' && "ssisdeploymentmanifest"@[11] == 'e' && "ssisdeploymentmanifest"@[12] == 'n' && "ssisdeploymentmanifest"@[13] == 't' && "ssisdeploymentmanifest"@[14] == 'm' && "ssisdeploymentmanifest"@[15] == 'a' && "ssisdeploymentmanifest"@[16] == 'n' && "ssisdeploymentmanifest"@[17] == 'i' && "ssisdeploymentmanifest"@[18] == 'f' && "ssisdeploymentmanifest"@[19] == 'e' && "ssisdeploymentmanifest"@[20] == 's' && "ssisdeploymentmanifest"@[21] == 't',
        "ssm"@.len() == 3 && "ssm"@[0] == 's' && "ssm"@[1] == 's' && "ssm"@[2] == 'm',
        "sst"@.len() == 3 && "sst"@[0] == 's' && "sst"@[1] == 's' && "sst"@[2] == 't',
{
    reveal_strlit("sldx");
    reveal_strlit("slk");
    reveal_strlit("sln");
    reveal_strlit("slupkg-ms");
    reveal_strlit("smd");
    reveal_strlit("smi");
    reveal_strlit("smx");
    reveal_strlit("smz");
    reveal_strlit("snd");
    reveal_strlit("snippet");
    reveal_strlit("snp");
    reveal_strlit("sol");
    reveal_strlit("sor");
    reveal_strlit("spc");
    reveal_strlit("spl");
    reveal_strlit("src");
    reveal_strlit("srf");
    reveal_strlit("ssisdeploymentmanifest");
    reveal_strlit("ssm");
    reveal_strlit("sst");
}

/// The characters of the extensions of table entries 421 to 440
/// (they tell the entries apart).
proof fn lemma_table_extensions_22()
    ensures
        "stl"@.len() == 3 && "stl"@[0] == 's' && "stl"@[1] == 't' && "stl"@[2] == 'l',
        "sv4cpio"@.len() == 7 && "sv4cpio"@[0] == 's' && "sv4cpio"@[1] == 'v' && "sv4cpio"@[2] == '4' && "sv4cpio"@[3] == 'c' && "sv4cpio"@[4] == 'p' && "sv4cpio"@[5] == 'i' && "sv4cpio"@[6] == 'o',
        "sv4crc"@.len() == 6 && "sv4crc"@[0] == 's' && "sv4crc"@[1] == 'v' && "sv4crc"@[2] == '4' && "sv4crc"@[3] == 'c' && "sv4crc"@[4] == 'r' && "sv4crc"@[5] == 'c',
        "svc"@.len() == 3 && "svc"@[0] == 's' && "svc"@[1] == 'v' && "svc"@[2] == 'c',
        "svg"@.len() == 3 && "svg"@[0] == 's' && "svg"@[1] == 'v' && "svg"@[2] == 'g',
        "swf"@.len() == 3 && "swf"@[0] == 's' && "swf"@[1] == 'w' && "swf"@[2] == 'f',
        "t"@.len() == 1 && "t"@[0] == 't',
        "tar"@.len() == 3 && "tar"@[0] == 't' && "tar"@[1] == 'a' && "tar"@[2] == 'r',
        "tcl"@.len() == 3 && "tcl"@[0] == 't' && "tcl"@[1] == 'c' && "tcl"@[2] == 'l',
        "testrunconfig"@.len() == 13 && "testrunconfig"@[0] == 't' && "testrunconfig"@[1] == 'e' && "testrunconfig"@[2] == 's' && "testrunconfig"@[3] == 't' && "testrunconfig"@[4] == 'r' && "testrunconfig"@[5] == 'u' && "testrunconfig"@[6] == 'n' && "testrunconfig"@[7] == 'c' && "testrunconfig"@[8] == 'o' && "testrunconfig"@[9] == 'n' && "testrunconfig"@[10] == 'f' && "testrunconfig"@[11] == 'i' && "testrunconfig"@[12] == 'g',
        "testsettings"@.len() == 12 && "testsettings"@[0] == 't' && "testsettings"@[1] == 'e' && "testsettings"@[2] == 's' && "testsettings"@[3] == 't' && "testsettings"@[4] == 's' && "testsettings"@[5] == 'e' && "testsettings"@[6] == 't' && "testsettings"@[7] == 't' && "testsettings"@[8] == 'i' && "testsettings"@[9] == 'n' && "testsettings"@[10] == 'g' && "testsettings"@[11] == 's',
        "tex"@.len() == 3 && "tex"@[0] == 't' && "tex"@[1] == 'e' && "tex"@[2] == 'x',
        "texi"@.len() == 4 && "texi"@[0] == 't' && "texi"@[1] == 'e' && "texi"@[2] == 'x' && "texi"@[3] == 'i',
        "texinfo"@.len() == 7 && "texinfo"@[0] == 't' && "texinfo"@[1] == 'e' && "texinfo"@[2] == 'x' && "texinfo"@[3] == 'i' && "texinfo"@[4] == 'n' && "texinfo"@[5] == 'f' && "texinfo"@[6] == 'o',
        "tgz"@.len() == 3 && "tgz"@[0] == 't' && "tgz"@[1] == 'g' && "tgz"@[2] == 'z',
        "thmx"@.len() == 4 && "thmx"@[0] == 't' && "thmx"@[1] == 'h' && "thmx"@[2] == 'm' && "thmx"@[3] == 'x',
        "thn"@.len() == 3 && "thn"@[0] == 't' && "thn"@[1] == 'h' && "thn"@[2] == 'n',
        "tif"@.len() == 3 && "tif"@[0] == 't' && "tif"@[1] == 'i' && "tif"@[2] == 'f',
        "tiff"@.len() == 4 && "tiff"@[0] == 't' && "tiff"@[1] == 'i' && "tiff"@[2] == 'f' && "tiff"@[3] == 'f',
        "tlh"@.len() == 3 && "tlh"@[0] == 't' && "tlh"@[1] == 'l' && "tlh"@[2] == 'h',
{
    reveal_strlit("stl");
    reveal_strlit("sv4cpio");
    reveal_strlit("sv4crc");
    reveal_strlit("svc");
    reveal_strlit("svg");
    reveal_strlit("swf");
    reveal_strlit("t");
    reveal_strlit("tar");
    reveal_strlit("tcl");
    reveal_strlit("testrunconfig");
    reveal_strlit("testsettings");
    reveal_strlit("tex");
    reveal_strlit("texi");
    reveal_strlit("texinfo");
    reveal_strlit("tgz");
    reveal_strlit("thmx");
    reveal_strlit("thn");
    reveal_strlit("tif");
    reveal_strlit("tiff");
    reveal_strlit("tlh");
}

/// The characters of the extensions of table entries 441 to 460
/// (they tell the entries apart).
proof fn lemma_table_extensions_23()
    ensures
        "tli"@.len() == 3 && "tli"@[0] == 't' && "tli"@[1] == 'l' && "tli"@[2] == 'i',
        "toc"@.len() == 3 && "toc"@[0] == 't' && "toc"@[1] == 'o' && "toc"@[2] == 'c',
        "tr"@.len() == 2 && "tr"@[0] == 't' && "tr"@[1] == 'r',
        "trm"@.len() == 3 && "trm"@[0] == 't' && "trm"@[1] == 'r' && "trm"@[2] == 'm',
        "trx"@.len() == 3 && "trx"@[0] == 't' && "trx"@[1] == 'r' && "trx"@[2] == 'x',
        "ts"@.len() == 2 && "ts"@[0] == 't' && "ts"@[1] == 's',
        "tsv"@.len() == 3 && "tsv"@[0] == 't' && "tsv"@[1] == 's' && "tsv"@[2] == 'v',
        "ttf"@.len() == 3 && "ttf"@[0] == 't' && "ttf"@[1] == 't' && "ttf"@[2] == 'f',
        "tts"@.len() == 3 && "tts"@[0] == 't' && "tts"@[1] == 't' && "tts"@[2] == 's',
        "txt"@.len() == 3 && "txt"@[0] == 't' && "txt"@[1] == 'x' && "txt"@[2] == 't',
        "u32"@.len() == 3 && "u32"@[0] == 'u' && "u32"@[1] == '3' && "u32"@[2] == '2',
        "uls"@.len() == 3 && "uls"@[0] == 'u' && "uls"@[1] == 'l' && "uls"@[2] == 's',
        "user"@.len() == 4 && "user"@[0] == 'u' && "user"@[1] == 's' && "user"@[2] == 'e' && "user"@[3] == 'r',
        "ustar"@.len() == 5 && "ustar"@[0] == 'u' && "ustar"@[1] == 's' && "ustar"@[2] == 't' && "ustar"@[3] == 'a' && "ustar"@[4] == 'r',
        "vb"@.len() == 2 && "vb"@[0] == 'v' && "vb"@[1] == 'b',
        "vbdproj"@.len() == 7 && "vbdproj"@[0] == 'v' && "vbdproj"@[1] == 'b' && "vbdproj"@[2] == 'd' && "vbdproj"@[3] == 'p' && "vbdproj"@[4] == 'r' && "vbdproj"@[5] == 'o' && "vbdproj"@[6] == 'j',
        "vbk"@.len() == 3 && "vbk"@[0] == 'v' && "vbk"@[1] == 'b' && "vbk"@[2] == 'k',
        "vbproj"@.len() == 6 && "vbproj"@[0] == 'v' && "vbproj"@[1] == 'b' && "vbproj"@[2] == 'p' && "vbproj"@[3] == 'r' && "vbproj"@[4] == 'o' && "vbproj"@[5] == 'j',
        "vbs"@.len() == 3 && "vbs"@[0] == 'v' && "vbs"@[1] == 'b' && "vbs"@[2] == 's',
        "vcf"@.len() == 3 && "vcf"@[0] == 'v' && "vcf"@[1] == 'c' && "vcf"@[2] == 'f',
{
    reveal_strlit("tli");
    reveal_strlit("toc");
    reveal_strlit("tr");
    reveal_strlit("trm");
    reveal_strlit("trx");
    reveal_strlit("ts");
    reveal_strlit("tsv");
    reveal_strlit("ttf");
    reveal_strlit("tts");
    reveal_strlit("txt");
    reveal_strlit("u32");
    reveal_strlit("uls");
    reveal_strlit("user");
    reveal_strlit("ustar");
    reveal_strlit("vb");
    reveal_strlit("vbdproj");
    reveal_strlit("vbk");
    reveal_strlit("vbproj");
    reveal_strlit("vbs");
    reveal_strlit("vcf");
}

/// The characters of the extensions of table entries 461 to 480
/// (they tell the entries apart).
proof fn lemma_table_extensions_24()
    ensures
        "vcproj"@.len() == 6 && "vcproj"@[0] == 'v' && "vcproj"@[1] == 'c' && "vcproj"@[2] == 'p' && "vcproj"@[3] == 'r' && "vcproj"@[4] == 'o' && "vcproj"@[5] == 'j',
        "vcs"@.len() == 3 && "vcs"@[0] == 'v' && "vcs"@[1] == 'c' && "vcs"@[2] == 's',
        "vcxproj"@.len() == 7 && "vcxproj"@[0] == 'v' && "vcxproj"@[1] == 'c' && "vcxproj"@[2] == 'x' && "vcxproj"@[3] == 'p' && "vcxproj"@[4] == 'r' && "vcxproj"@[5] == 'o' && "vcxproj"@[6] == 'j',
        "vddproj"@.len() == 7 && "vddproj"@[0] == 'v' && "vddproj"@[1] == 'd' && "vddproj"@[2] == 'd' && "vddproj"@[3] == 'p' && "vddproj"@[4] == 'r' && "vddproj"@[5] == 'o' && "vddproj"@[6] == 'j',
        "vdp"@.len() == 3 && "vdp"@[0] == 'v' && "vdp"@[1] == 'd' && "vdp"@[2] == 'p',
        "vdproj"@.len() == 6 && "vdproj"@[0] == 'v' && "vdproj"@[1] == 'd' && "vdproj"@[2] == 'p' && "vdproj"@[3] == 'r' && "vdproj"@[4] == 'o' && "vdproj"@[5] == 'j',
        "vdx"@.len() == 3 && "vdx"@[0] == 'v' && "vdx"@[1] == 'd' && "vdx"@[2] == 'x',
        "vml"@.len() == 3 && "vml"@[0] == 'v' && "vml"@[1] == 'm' && "vml"@[2] == 'l',
        "vscontent"@.len() == 9 && "vscontent"@[0] == 'v' && "vscontent"@[1] == 's' && "vscontent"@[2] == 'c' && "vscontent"@[3] == 'o' && "vscontent"@[4] == 'n' && "vscontent"@[5] == 't' && "vscontent"@[6] == 'e' && "vscontent"@[7] == 'n' && "vscontent"@[8] == 't',
        "vsct"@.len() == 4 && "vsct"@[0] == 'v' && "vsct"@[1] == 's' && "vsct"@[2] == 'c' && "vsct"@[3] == 't',
        "vsd"@.len() == 3 && "vsd"@[0] == 'v' && "vsd"@[1] == 's' && "vsd"@[2] == 'd',
        "vsi"@.len() == 3 && "vsi"@[0] == 'v' && "vsi"@[1] == 's' && "vsi"@[2] == 'i',
        "vsix"@.len() == 4 && "vsix"@[0] == 'v' && "vsix"@[1] == 's' && "vsix"@[2] == 'i' && "vsix"@[3] == 'x',
        "vsixlangpack"@.len() == 12 && "vsixlangpack"@[0] == 'v' && "vsixlangpack"@[1] == 's' && "vsixlangpack"@[2] == 'i' && "vsixlangpack"@[3] == 'x' && "vsixlangpack"@[4] == 'l' && "vsixlangpack"@[5] == 'a' && "vsixlangpack"@[6] == 'n' && "vsixlangpack"@[7] == 'g' && "vsixlangpack"@[8] == 'p' && "vsixlangpack"@[9] == 'a' && "vsixlangpack"@[10] == 'c' && "vsixlangpack"@[11] == 'k',
        "vsixmanifest"@.len() == 12 && "vsixmanifest"@[0] == 'v' && "vsixmanifest"@[1] == 's' && "vsixmanifest"@[2] == 'i' && "vsixmanifest"@[3] == 'x' && "vsixmanifest"@[4] == 'm' && "vsixmanifest"@[5] == 'a' && "vsixmanifest"@[6] == 'n' && "vsixmanifest"@[7] == 'i' && "vsixmanifest"@[8] == 'f' && "vsixmanifest"@[9] == 'e' && "vsixmanifest"@[10] == 's' && "vsixmanifest"@[11] == 't',
        "vsmdi"@.len() == 5 && "vsmdi"@[0] == 'v' && "vsmdi"@[1] == 's' && "vsmdi"@[2] == 'm' && "vsmdi"@[3] == 'd' && "vsmdi"@[4] == 'i',
        "vspscc"@.len() == 6 && "vspscc"@[0] == 'v' && "vspscc"@[1] == 's' && "vspscc"@[2] == 'p' && "vspscc"@[3] == 's' && "vspscc"@[4] == 'c' && "vspscc"@[5] == 'c',
        "vss"@.len() == 3 && "vss"@[0] == 'v' && "vss"@[1] == 's' && "vss"@[2] == 's',
        "vsscc"@.len() == 5 && "vsscc"@[0] == 'v' && "vsscc"@[1] == 's' && "vsscc"@[2] == 's' && "vsscc"@[3] == 'c' && "vsscc"@[4] == 'c',
        "vssettings"@.len() == 10 && "vssettings"@[0] == 'v' && "vssettings"@[1] == 's' && "vssettings"@[2] == 's' && "vssettings"@[3] == 'e' && "vssettings"@[4] == 't' && "vssettings"@[5] == 't' && "vssettings"@[6] == 'i' && "vssettings"@[7] == 'n' && "vssettings"@[8] == 'g' && "vssettings"@[9] == 's',
{
    reveal_strlit("vcproj");
    reveal_strlit("vcs");
    reveal_strlit("vcxproj");
    reveal_strlit("vddproj");
    reveal_strlit("vdp");
    reveal_strlit("vdproj");
    reveal_strlit("vdx");
    reveal_strlit("vml");
    reveal_strlit("vscontent");
    reveal_strlit("vsct");
    reveal_strlit("vsd");
    reveal_strlit("vsi");
    reveal_strlit("vsix");
    reveal_strlit("vsixlangpack");
    reveal_strlit("vsixmanifest");
    reveal_strlit("vsmdi");
    reveal_strlit("vspscc");
    reveal_strlit("vss");
    reveal_strlit("vsscc");
    reveal_strlit("vssettings");
}

/// The characters of the extensions of table entries 481 to 500
/// (they tell the entries apart).
proof fn lemma_table_extensions_25()
    ensures
        "vssscc"@.len() == 6 && "vssscc"@[0] == 'v' && "vssscc"@[1] == 's' && "vssscc"@[2] == 's' && "vssscc"@[3] == 's' && "vssscc"@[4] == 'c' && "vssscc"@[5] == 'c',
        "vst"@.len() == 3 && "vst"@[0] == 'v' && "vst"@[1] == 's' && "vst"@[2] == 't',
        "vstemplate"@.len() == 10 && "vstemplate"@[0] == 'v' && "vstemplate"@[1] == 's' && "vstemplate"@[2] == 't' && "vstemplate"@[3] == 'e' && "vstemplate"@[4] == 'm' && "vstemplate"@[5] == 'p' && "vstemplate"@[6] == 'l' && "vstemplate"@[7] == 'a' && "vstemplate"@[8] == 't' && "vstemplate"@[9] == 'e',
        "vsto"@.len() == 4 && "vsto"@[0] == 'v' && "vsto"@[1] == 's' && "vsto"@[2] == 't' && "vsto"@[3] == 'o',
        "vsw"@.len() == 3 && "vsw"@[0] == 'v' && "vsw"@[1] == 's' && "vsw"@[2] == 'w',
        "vsx"@.len() == 3 && "vsx"@[0] == 'v' && "vsx"@[1] == 's' && "vsx"@[2] == 'x',
        "vtx"@.len() == 3 && "vtx"@[0] == 'v' && "vtx"@[1] == 't' && "vtx"@[2] == 'x',
        "wasm"@.len() == 4 && "wasm"@[0] == 'w' && "wasm"@[1] == 'a' && "wasm"@[2] == 's' && "wasm"@[3] == 'm',
        "wav"@.len() == 3 && "wav"@[0] == 'w' && "wav"@[1] == 'a' && "wav"@[2] == 'v',
        "wave"@.len() == 4 && "wave"@[0] == 'w' && "wave"@[1] == 'a' && "wave"@[2] == 'v' && "wave"@[3] == 'e',
        "wax"@.len() == 3 && "wax"@[0] == 'w' && "wax"@[1] == 'a' && "wax"@[2] == 'x',
        "wbk"@.len() == 3 && "wbk"@[0] == 'w' && "wbk"@[1] == 'b' && "wbk"@[2] == 'k',
        "wbmp"@.len() == 4 && "wbmp"@[0] == 'w' && "wbmp"@[1] == 'b' && "wbmp"@[2] == 'm' && "wbmp"@[3] == 'p',
        "wcm"@.len() == 3 && "wcm"@[0] == 'w' && "wcm"@[1] == 'c' && "wcm"@[2] == 'm',
        "wdb"@.len() == 3 && "wdb"@[0] == 'w' && "wdb"@[1] == 'd' && "wdb"@[2] == 'b',
        "wdp"@.len() == 3 && "wdp"@[0] == 'w' && "wdp"@[1] == 'd' && "wdp"@[2] == 'p',
        "webarchive"@.len() == 10 && "webarchive"@[0] == 'w' && "webarchive"@[1] == 'e' && "webarchive"@[2] == 'b' && "webarchive"@[3] == 'a' && "webarchive"@[4] == 'r' && "webarchive"@[5] == 'c' && "webarchive"@[6] == 'h' && "webarchive"@[7] == 'i' && "webarchive"@[8] == 'v' && "webarchive"@[9] == 'e',
        "webtest"@.len() == 7 && "webtest"@[0] == 'w' && "webtest"@[1] == 'e' && "webtest"@[2] == 'b' && "webtest"@[3] == 't' && "webtest"@[4] == 'e' && "webtest"@[5] == 's' && "webtest"@[6] == 't',
        "wiq"@.len() == 3 && "wiq"@[0] == 'w' && "wiq"@[1] == 'i' && "wiq"@[2] == 'q',
        "wiz"@.len() == 3 && "wiz"@[0] == 'w' && "wiz"@[1] == 'i' && "wiz"@[2] == 'z',
{
    reveal_strlit("vssscc");
    reveal_strlit("vst");
    reveal_strlit("vstemplate");
    reveal_strlit("vsto");
    reveal_strlit("vsw");
    reveal_strlit("vsx");
    reveal_strlit("vtx");
    reveal_strlit("wasm");
    reveal_strlit("wav");
    reveal_strlit("wave");
    reveal_strlit("wax");
    reveal_strlit("wbk");
    reveal_strlit("wbmp");
    reveal_strlit("wcm");
    reveal_strlit("wdb");
    reveal_strlit("wdp");
    reveal_strlit("webarchive");
    reveal_strlit("webtest");
    reveal_strlit("wiq");
    reveal_strlit("wiz");
}

/// The characters of the extensions of table entries 501 to 520
/// (they tell the entries apart).
proof fn lemma_table_extensions_26()
    ensures
        "wks"@.len() == 3 && "wks"@[0] == 'w' && "wks"@[1] == 'k' && "wks"@[2] == 's',
        "wlmp"@.len() == 4 && "wlmp"@[0] == 'w' && "wlmp"@[1] == 'l' && "wlmp"@[2] == 'm' && "wlmp"@[3] == 'p',
        "wlpginstall"@.len() == 11 && "wlpginstall"@[0] == 'w' && "wlpginstall"@[1] == 'l' && "wlpginstall"@[2] == 'p' && "wlpginstall"@[3] == 'g' && "wlpginstall"@[4] == 'i' && "wlpginstall"@[5] == 'n' && "wlpginstall"@[6] == 's' && "wlpginstall"@[7] == 't' && "wlpginstall"@[8] == 'a' && "wlpginstall"@[9] == 'l' && "wlpginstall"@[10] == 'l',
        "wlpginstall3"@.len() == 12 && "wlpginstall3"@[0] == 'w' && "wlpginstall3"@[1] == 'l' && "wlpginstall3"@[2] == 'p' && "wlpginstall3"@[3] == 'g' && "wlpginstall3"@[4] == 'i' && "wlpginstall3"@[5] == 'n' && "wlpginstall3"@[6] == 's' && "wlpginstall3"@[7] == 't' && "wlpginstall3"@[8] == 'a' && "wlpginstall3"@[9] == 'l' && "wlpginstall3"@[10] == 'l' && "wlpginstall3"@[11] == '3',
        "wm"@.len() == 2 && "wm"@[0] == 'w' && "wm"@[1] == 'm',
        "wma"@.len() == 3 && "wma"@[0] == 'w' && "wma"@[1] == 'm' && "wma"@[2] == 'a',
        "wmd"@.len() == 3 && "wmd"@[0] == 'w' && "wmd"@[1] == 'm' && "wmd"@[2] == 'd',
        "wmf"@.len() == 3 && "wmf"@[0] == 'w' && "wmf"@[1] == 'm' && "wmf"@[2] == 'f',
        "wml"@.len() == 3 && "wml"@[0] == 'w' && "wml"@[1] == 'm' && "wml"@[2] == 'l',
        "wmlc"@.len() == 4 && "wmlc"@[0] == 'w' && "wmlc"@[1] == 'm' && "wmlc"@[2] == 'l' && "wmlc"@[3] == 'c',
        "wmls"@.len() == 4 && "wmls"@[0] == 'w' && "wmls"@[1] == 'm' && "wmls"@[2] == 'l' && "wmls"@[3] == 's',
        "wmlsc"@.len() == 5 && "wmlsc"@[0] == 'w' && "wmlsc"@[1] == 'm' && "wmlsc"@[2] == 'l' && "wmlsc"@[3] == 's' && "wmlsc"@[4] == 'c',
        "wmp"@.len() == 3 && "wmp"@[0] == 'w' && "wmp"@[1] == 'm' && "wmp"@[2] == 'p',
        "wmv"@.len() == 3 && "wmv"@[0] == 'w' && "wmv"@[1] == 'm' && "wmv"@[2] == 'v',
        "wmx"@.len() == 3 && "wmx"@[0] == 'w' && "wmx"@[1] == 'm' && "wmx"@[2] == 'x',
        "wmz"@.len() == 3 && "wmz"@[0] == 'w' && "wmz"@[1] == 'm' && "wmz"@[2] == 'z',
        "woff"@.len() == 4 && "woff"@[0] == 'w' && "woff"@[1] == 'o' && "woff"@[2] == 'f' && "woff"@[3] == 'f',
        "woff2"@.len() == 5 && "woff2"@[0] == 'w' && "woff2"@[1] == 'o' && "woff2"@[2] == 'f' && "woff2"@[3] == 'f' && "woff2"@[4] == '2',
        "wpl"@.len() == 3 && "wpl"@[0] == 'w' && "wpl"@[1] == 'p' && "wpl"@[2] == 'l',
        "wps"@.len() == 3 && "wps"@[0] == 'w' && "wps"@[1] == 'p' && "wps"@[2] == 's',
{
    reveal_strlit("wks");
    reveal_strlit("wlmp");
    reveal_strlit("wlpginstall");
    reveal_strlit("wlpginstall3");
    reveal_strlit("wm");
    reveal_strlit("wma");
    reveal_strlit("wmd");
    reveal_strlit("wmf");
    reveal_strlit("wml");
    reveal_strlit("wmlc");
    reveal_strlit("wmls");
    reveal_strlit("wmlsc");
    reveal_strlit("wmp");
    reveal_strlit("wmv");
    reveal_strlit("wmx");
    reveal_strlit("wmz");
    reveal_strlit("woff");
    reveal_strlit("woff2");
    reveal_strlit("wpl");
    reveal_strlit("wps");
}

/// The characters of the extensions of table entries 521 to 540
/// (they tell the entries apart).
proof fn lemma_table_extensions_27()
    ensures
        "wri"@.len() == 3 && "wri"@[0] == 'w' && "wri"@[1] == 'r' && "wri"@[2] == 'i',
        "wrl"@.len() == 3 && "wrl"@[0] == 'w' && "wrl"@[1] == 'r' && "wrl"@[2] == 'l',
        "wrz"@.len() == 3 && "wrz"@[0] == 'w' && "wrz"@[1] == 'r' && "wrz"@[2] == 'z',
        "wsc"@.len() == 3 && "wsc"@[0] == 'w' && "wsc"@[1] == 's' && "wsc"@[2] == 'c',
        "wsdl"@.len() == 4 && "wsdl"@[0] == 'w' && "wsdl"@[1] == 's' && "wsdl"@[2] == 'd' && "wsdl"@[3] == 'l',
        "wvx"@.len() == 3 && "wvx"@[0] == 'w' && "wvx"@[1] == 'v' && "wvx"@[2] == 'x',
        "x"@.len() == 1 && "x"@[0] == 'x',
        "xaf"@.len() == 3 && "xaf"@[0] == 'x' && "xaf"@[1] == 'a' && "xaf"@[2] == 'f',
        "xaml"@.len() == 4 && "xaml"@[0] == 'x' && "xaml"@[1] == 'a' && "xaml"@[2] == 'm' && "xaml"@[3] == 'l',
        "xap"@.len() == 3 && "xap"@[0] == 'x' && "xap"@[1] == 'a' && "xap"@[2] == 'p',
        "xbap"@.len() == 4 && "xbap"@[0] == 'x' && "xbap"@[1] == 'b' && "xbap"@[2] == 'a' && "xbap"@[3] == 'p',
        "xbm"@.len() == 3 && "xbm"@[0] == 'x' && "xbm"@[1] == 'b' && "xbm"@[2] == 'm',
        "xdr"@.len() == 3 && "xdr"@[0] == 'x' && "xdr"@[1] == 'd' && "xdr"@[2] == 'r',
        "xht"@.len() == 3 && "xht"@[0] == 'x' && "xht"@[1] == 'h' && "xht"@[2] == 't',
        "xhtml"@.len() == 5 && "xhtml"@[0] == 'x' && "xhtml"@[1] == 'h' && "xhtml"@[2] == 't' && "xhtml"@[3] == 'm' && "xhtml"@[4] == 'l',
        "xla"@.len() == 3 && "xla"@[0] == 'x' && "xla"@[1] == 'l' && "xla"@[2] == 'a',
        "xlam"@.len() == 4 && "xlam"@[0] == 'x' && "xlam"@[1] == 'l' && "xlam"@[2] == 'a' && "xlam"@[3] == 'm',
        "xlc"@.len() == 3 && "xlc"@[0] == 'x' && "xlc"@[1] == 'l' && "xlc"@[2] == 'c',
        "xld"@.len() == 3 && "xld"@[0] == 'x' && "xld"@[1] == 'l' && "xld"@[2] == 'd',
        "xlk"@.len() == 3 && "xlk"@[0] == 'x' && "xlk"@[1] == 'l' && "xlk"@[2] == 'k',
{
    reveal_strlit("wri");
    reveal_strlit("wrl");
    reveal_strlit("wrz");
    reveal_strlit("wsc");
    reveal_strlit("wsdl");
    reveal_strlit("wvx");
    reveal_strlit("x");
    reveal_strlit("xaf");
    reveal_strlit("xaml");
    reveal_strlit("xap");
    reveal_strlit("xbap");
    reveal_strlit("xbm");
    reveal_strlit("xdr");
    reveal_strlit("xht");
    reveal_strlit("xhtml");
    reveal_strlit("xla");
    reveal_strlit("xlam");
    reveal_strlit("xlc");
    reveal_strlit("xld");
    reveal_strlit("xlk");
}

/// The characters of the extensions of table entries 541 to 560
/// (they tell the entries apart).
proof fn lemma_table_extensions_28()
    ensures
        "xll"@.len() == 3 && "xll"@[0] == 'x' && "xll"@[1] == 'l' && "xll"@[2] == 'l',
        "xlm"@.len() == 3 && "xlm"@[0] == 'x' && "xlm"@[1] == 'l' && "xlm"@[2] == 'm',
        "xls"@.len() == 3 && "xls"@[0] == 'x' && "xls"@[1] == 'l' && "xls"@[2] == 's',
        "xlsb"@.len() == 4 && "xlsb"@[0] == 'x' && "xlsb"@[1] == 'l' && "xlsb"@[2] == 's' && "xlsb"@[3] == 'b',
        "xlsm"@.len() == 4 && "xlsm"@[0] == 'x' && "xlsm"@[1] == 'l' && "xlsm"@[2] == 's' && "xlsm"@[3] == 'm',
        "xlsx"@.len() == 4 && "xlsx"@[0] == 'x' && "xlsx"@[1] == 'l' && "xlsx"@[2] == 's' && "xlsx"@[3] == 'x',
        "xlt"@.len() == 3 && "xlt"@[0] == 'x' && "xlt"@[1] == 'l' && "xlt"@[2] == 't',
        "xltm"@.len() == 4 && "xltm"@[0] == 'x' && "xltm"@[1] == 'l' && "xltm"@[2] == 't' && "xltm"@[3] == 'm',
        "xltx"@.len() == 4 && "xltx"@[0] == 'x' && "xltx"@[1] == 'l' && "xltx"@[2] == 't' && "xltx"@[3] == 'x',
        "xlw"@.len() == 3 && "xlw"@[0] == 'x' && "xlw"@[1] == 'l' && "xlw"@[2] == 'w',
        "xml"@.len() == 3 && "xml"@[0] == 'x' && "xml"@[1] == 'm' && "xml"@[2] == 'l',
        "xmta"@.len() == 4 && "xmta"@[0] == 'x' && "xmta"@[1] == 'm' && "xmta"@[2] == 't' && "xmta"@[3] == 'a',
        "xof"@.len() == 3 && "xof"@[0] == 'x' && "xof"@[1] == 'o' && "xof"@[2] == 'f',
        "xoml"@.len() == 4 && "xoml"@[0] == 'x' && "xoml"@[1] == 'o' && "xoml"@[2] == 'm' && "xoml"@[3] == 'l',
        "xpm"@.len() == 3 && "xpm"@[0] == 'x' && "xpm"@[1] == 'p' && "xpm"@[2] == 'm',
        "xps"@.len() == 3 && "xps"@[0] == 'x' && "xps"@[1] == 'p' && "xps"@[2] == 's',
        "xrm-ms"@.len() == 6 && "xrm-ms"@[0] == 'x' && "xrm-ms"@[1] == 'r' && "xrm-ms"@[2] == 'm' && "xrm-ms"@[3] == '-' && "xrm-ms"@[4] == 'm' && "xrm-ms"@[5] == 's',
        "xsc"@.len() == 3 && "xsc"@[0] == 'x' && "xsc"@[1] == 's' && "xsc"@[2] == 'c',
        "xsd"@.len() == 3 && "xsd"@[0] == 'x' && "xsd"@[1] == 's' && "xsd"@[2] == 'd',
        "xsf"@.len() == 3 && "xsf"@[0] == 'x' && "xsf"@[1] == 's' && "xsf"@[2] == 'f',
{
    reveal_strlit("xll");
    reveal_strlit("xlm");
    reveal_strlit("xls");
    reveal_strlit("xlsb");
    reveal_strlit("xlsm");
    reveal_strlit("xlsx");
    reveal_strlit("xlt");
    reveal_strlit("xltm");
    reveal_strlit("xltx");
    reveal_strlit("xlw");
    reveal_strlit("xml");
    reveal_strlit("xmta");
    reveal_strlit("xof");
    reveal_strlit("xoml");
    reveal_strlit("xpm");
    reveal_strlit("xps");
    reveal_strlit("xrm-ms");
    reveal_strlit("xsc");
    reveal_strlit("xsd");
    reveal_strlit("xsf");
}

/// The characters of the extensions of table entries 561 to 568
/// (they tell the entries apart).
proof fn lemma_table_extensions_29()
    ensures
        "xsl"@.len() == 3 && "xsl"@[0] == 'x' && "xsl"@[1] == 's' && "xsl"@[2] == 'l',
        "xslt"@.len() == 4 && "xslt"@[0] == 'x' && "xslt"@[1] == 's' && "xslt"@[2] == 'l' && "xslt"@[3] == 't',
        "xsn"@.len() == 3 && "xsn"@[0] == 'x' && "xsn"@[1] == 's' && "xsn"@[2] == 'n',
        "xss"@.len() == 3 && "xss"@[0] == 'x' && "xss"@[1] == 's' && "xss"@[2] == 's',
        "xtp"@.len() == 3 && "xtp"@[0] == 'x' && "xtp"@[1] == 't' && "xtp"@[2] == 'p',
        "xwd"@.len() == 3 && "xwd"@[0] == 'x' && "xwd"@[1] == 'w' && "xwd"@[2] == 'd',
        "z"@.len() == 1 && "z"@[0] == 'z',
        "zip"@.len() == 3 && "zip"@[0] == 'z' && "zip"@[1] == 'i' && "zip"@[2] == 'p',
{
    reveal_strlit("xsl");
    reveal_strlit("xslt");
    reveal_strlit("xsn");
    reveal_strlit("xss");
    reveal_strlit("xtp");
    reveal_strlit("xwd");
    reveal_strlit("z");
    reveal_strlit("zip");
}

/// The table, entries 1 to 20: each extension and the MIME
/// type announced for it.
pub proof fn lemma_mime_table_part_1()
    ensures
        mime_type_for(Some("323"@)) == "text/h323; charset=utf8"@,
        mime_type_for(Some("3g2"@)) == "video/3gpp2"@,
        mime_type_for(Some("3gp"@)) == "video/3gpp"@,
        mime_type_for(Some("3gp2"@)) == "video/3gpp2"@,
        mime_type_for(Some("3gpp"@)) == "video/3gpp"@,
        mime_type_for(Some("7z"@)) == "application/x-7z-compressed"@,
        mime_type_for(Some("aa"@)) == "audio/audible"@,
        mime_type_for(Some("aac"@)) == "audio/aac"@,
        mime_type_for(Some("aaf"@)) == "application/octet-stream"@,
        mime_type_for(Some("aax"@)) == "audio/vnd.audible.aax"@,
        mime_type_for(Some("ac3"@)) == "audio/ac3"@,
        mime_type_for(Some("aca"@)) == "application/octet-stream"@,
        mime_type_for(Some("accda"@)) == "application/msaccess.addin"@,
        mime_type_for(Some("accdb"@)) == "application/msaccess"@,
        mime_type_for(Some("accdc"@)) == "application/msaccess.cab"@,
        mime_type_for(Some("accde"@)) == "application/msaccess"@,
        mime_type_for(Some("accdr"@)) == "application/msaccess.runtime"@,
        mime_type_for(Some("accdt"@)) == "application/msaccess"@,
        mime_type_for(Some("accdw"@)) == "application/msaccess.webapplication"@,
        mime_type_for(Some("accft"@)) == "application/msaccess.ftemplate"@,
{
    lemma_table_extensions_1();
}

/// The table, entries 21 to 40: each extension and the MIME
/// type announced for it.
pub proof fn lemma_mime_table_part_2()
    ensures
        mime_type_for(Some("acx"@)) == "application/internet-property-stream"@,
        mime_type_for(Some("addin"@)) == "application/xml"@,
        mime_type_for(Some("ade"@)) == "application/msaccess"@,
        mime_type_for(Some("adobebridge"@)) == "application/x-bridge-url"@,
        mime_type_for(Some("adp"@)) == "application/msaccess"@,
        mime_type_for(Some("adt"@)) == "audio/vnd.dlna.adts"@,
        mime_type_for(Some("adts"@)) == "audio/aac"@,
        mime_type_for(Some("afm"@)) == "application/octet-stream"@,
        mime_type_for(Some("ai"@)) == "application/postscript"@,
        mime_type_for(Some("aif"@)) == "audio/x-aiff"@,
        mime_type_for(Some("aifc"@)) == "audio/aiff"@,
        mime_type_for(Some("aiff"@)) == "audio/aiff"@,
        mime_type_for(Some("air"@)) == "application/vnd.adobe.air-application-installer-package+zip"@,
        mime_type_for(Some("amc"@)) == "application/x-mpeg"@,
        mime_type_for(Some("application"@)) == "application/x-ms-application"@,
        mime_type_for(Some("art"@)) == "image/x-jg"@,
        mime_type_for(Some("asa"@)) == "application/xml"@,
        mime_type_for(Some("asax"@)) == "application/xml"@,
        mime_type_for(Some("ascx"@)) == "application/xml"@,
        mime_type_for(Some("asd"@)) == "application/octet-stream"@,
{
    lemma_table_extensions_1();
    lemma_table_extensions_2();
}

/// The table, entries 41 to 60: each extension and the MIME
/// type announced for it.
pub proof fn lemma_mime_table_part_3()
    ensures
        mime_type_for(Some("asf"@)) == "video/x-ms-asf"@,
        mime_type_for(Some("ashx"@)) == "application/xml"@,
        mime_type_for(Some("asi"@)) == "application/octet-stream"@,
        mime_type_for(Some("asm"@)) == "text/plain; charset=utf8"@,
        mime_type_for(Some("asmx"@)) == "application/xml"@,
        mime_type_for(Some("aspx"@)) == "application/xml"@,
        mime_type_for(Some("asr"@)) == "video/x-ms-asf"@,
        mime_type_for(Some("asx"@)) == "video/x-ms-asf"@,
        mime_type_for(Some("atom"@)) == "application/atom+xml"@,
        mime_type_for(Some("au"@)) == "audio/basic"@,
        mime_type_for(Some("avi"@)) == "video/x-msvideo"@,
        mime_type_for(Some("axs"@)) == "application/olescript"@,
        mime_type_for(Some("bas"@)) == "text/plain; charset=utf8"@,
        mime_type_for(Some("bcpio"@)) == "application/x-bcpio"@,
        mime_type_for(Some("bin"@)) == "application/octet-stream"@,
        mime_type_for(Some("bmp"@)) == "image/bmp"@,
        mime_type_for(Some("c"@)) == "text/plain; charset=utf8"@,
        mime_type_for(Some("cab"@)) == "application/octet-stream"@,
        mime_type_for(Some("caf"@)) == "audio/x-caf"@,
        mime_type_for(Some("calx"@)) == "application/vnd.ms-office.calx"@,
{
    lemma_table_extensions_1();
    lemma_table_extensions_2();
    lemma_table_extensions_3();
}

/// The table, entries 61 to 80: each extension and the MIME
/// type announced for it.
pub proof fn lemma_mime_table_part_4()
    ensures
        mime_type_for(Some("cat"@)) == "application/vnd.ms-pki.seccat"@,
        mime_type_for(Some("cc"@)) == "text/plain; charset=utf8"@,
        mime_type_for(Some("cd"@)) == "text/plain; charset=utf8"@,
        mime_type_for(Some("cdda"@)) == "audio/aiff"@,
        mime_type_for(Some("cdf"@)) == "application/x-cdf"@,
        mime_type_for(Some("cer"@)) == "application/x-x509-ca-cert"@,
        mime_type_for(Some("chm"@)) == "application/octet-stream"@,
        mime_type_for(Some("class"@)) == "application/x-java-applet"@,
        mime_type_for(Some("clp"@)) == "application/x-msclip"@,
        mime_type_for(Some("cmx"@)) == "image/x-cmx"@,
        mime_type_for(Some("cnf"@)) == "text/plain; charset=utf8"@,
        mime_type_for(Some("cod"@)) == "image/cis-cod"@,
        mime_type_for(Some("config"@)) == "application/xml"@,
        mime_type_for(Some("contact"@)) == "text/x-ms-contact; charset=utf8"@,
        mime_type_for(Some("coverage"@)) == "application/xml"@,
        mime_type_for(Some("cpio"@)) == "application/x-cpio"@,
        mime_type_for(Some("cpp"@)) == "text/plain; charset=utf8"@,
        mime_type_for(Some("crd"@)) == "application/x-mscardfile"@,
        mime_type_for(Some("crl"@)) == "application/pkix-crl"@,
        mime_type_for(Some("crt"@)) == "application/x-x509-ca-cert"@,
{
    lemma_table_extensions_1();
    lemma_table_extensions_2();
    lemma_table_extensions_3();
    lemma_table_extensions_4();
}

/// The table, entries 81 to 100: each extension and the MIME
/// type announced for it.
pub proof fn lemma_mime_table_part_5()
    ensures
        mime_type_for(Some("cs"@)) == "text/plain; charset=utf8"@,
        mime_type_for(Some("csdproj"@)) == "text/plain; charset=utf8"@,
        mime_type_for(Some("csh"@)) == "application/x-csh"@,
        mime_type_for(Some("csproj"@)) == "text/plain; charset=utf8"@,
        mime_type_for(Some("css"@)) == "text/css; charset=utf8"@,
        mime_type_for(Some("csv"@)) == "text/csv; charset=utf8"@,
        mime_type_for(Some("cur"@)) == "application/octet-stream"@,
        mime_type_for(Some("cxx"@)) == "text/plain; charset=utf8"@,
        mime_type_for(Some("dat"@)) == "application/octet-stream"@,
        mime_type_for(Some("datasource"@)) == "application/xml"@,
        mime_type_for(Some("dbproj"@)) == "text/plain; charset=utf8"@,
        mime_type_for(Some("dcr"@)) == "application/x-director"@,
        mime_type_for(Some("def"@)) == "text/plain; charset=utf8"@,
        mime_type_for(Some("deploy"@)) == "application/octet-stream"@,
        mime_type_for(Some("der"@)) == "application/x-x509-ca-cert"@,
        mime_type_for(Some("dgml"@)) == "application/xml"@,
        mime_type_for(Some("dib"@)) == "image/bmp"@,
        mime_type_for(Some("dif"@)) == "video/x-dv"@,
        mime_type_for(Some("dir"@)) == "application/x-director"@,
        mime_type_for(Some("disco"@)) == "application/xml"@,
{
    lemma_table_extensions_1();
    lemma_table_extensions_2();
    lemma_table_extensions_3();
    lemma_table_extensions_4();
    lemma_table_extensions_5();
}

/// The table, entries 101 to 120: each extension and the MIME
/// type announced for it.
pub proof fn lemma_mime_table_part_6()
    ensures
        mime_type_for(Some("dll"@)) == "application/x-msdownload"@,
        mime_type_for(Some("dll.config"@)) == "application/xml"@,
        mime_type_for(Some("dlm"@)) == "text/dlm; charset=utf8"@,
        mime_type_for(Some("doc"@)) == "application/msword"@,
        mime_type_for(Some("docm"@)) == "application/vnd.ms-word.document.macroEnabled.12"@,
        mime_type_for(Some("docx"@)) == "application/vnd.openxmlformats-officedocument.wordprocessingml.document"@,
        mime_type_for(Some("dot"@)) == "application/msword"@,
        mime_type_for(Some("dotm"@)) == "application/vnd.ms-word.template.macroEnabled.12"@,
        mime_type_for(Some("dotx"@)) == "application/vnd.openxmlformats-officedocument.wordprocessingml.template"@,
        mime_type_for(Some("dsp"@)) == "application/octet-stream"@,
        mime_type_for(Some("dsw"@)) == "text/plain; charset=utf8"@,
        mime_type_for(Some("dtd"@)) == "application/xml"@,
        mime_type_for(Some("dtsConfig"@)) == "application/xml"@,
        mime_type_for(Some("dv"@)) == "video/x-dv"@,
        mime_type_for(Some("dvi"@)) == "application/x-dvi"@,
        mime_type_for(Some("dwf"@)) == "drawing/x-dwf"@,
        mime_type_for(Some("dwp"@)) == "application/octet-stream"@,
        mime_type_for(Some("dxr"@)) == "application/x-director"@,
        mime_type_for(Some("eml"@)) == "message/rfc822"@,
        mime_type_for(Some("emz"@)) == "application/octet-stream"@,
{
    lemma_table_extensions_1();
    lemma_table_extensions_2();
    lemma_table_extensions_3();
    lemma_table_extensions_4();
    lemma_table_extensions_5();
    lemma_table_extensions_6();
}

/// The table, entries 121 to 140: each extension and the MIME
/// type announced for it.
pub proof fn lemma_mime_table_part_7()
    ensures
        mime_type_for(Some("eot"@)) == "application/vnd.ms-fontobject"@,
        mime_type_for(Some("eps"@)) == "application/postscript"@,
        mime_type_for(Some("etl"@)) == "application/etl"@,
        mime_type_for(Some("etx"@)) == "text/x-setext; charset=utf8"@,
        mime_type_for(Some("evy"@)) == "application/envoy"@,
        mime_type_for(Some("exe"@)) == "application/octet-stream"@,
        mime_type_for(Some("exe.config"@)) == "application/xml"@,
        mime_type_for(Some("fdf"@)) == "application/vnd.fdf"@,
        mime_type_for(Some("fif"@)) == "application/fractals"@,
        mime_type_for(Some("filters"@)) == "Application/xml"@,
        mime_type_for(Some("fla"@)) == "application/octet-stream"@,
        mime_type_for(Some("flr"@)) == "x-world/x-vrml"@,
        mime_type_for(Some("flv"@)) == "video/x-flv"@,
        mime_type_for(Some("fsscript"@)) == "application/fsharp-script"@,
        mime_type_for(Some("fsx"@)) == "application/fsharp-script"@,
        mime_type_for(Some("generictest"@)) == "application/xml"@,
        mime_type_for(Some("gif"@)) == "image/gif"@,
        mime_type_for(Some("group"@)) == "text/x-ms-group; charset=utf8"@,
        mime_type_for(Some("gsm"@)) == "audio/x-gsm"@,
        mime_type_for(Some("gtar"@)) == "application/x-gtar"@,
{
    lemma_table_extensions_1();
    lemma_table_extensions_2();
    lemma_table_extensions_3();
    lemma_table_extensions_4();
    lemma_table_extensions_5();
    lemma_table_extensions_6();
    lemma_table_extensions_7();
}

/// The table, entries 141 to 160: each extension and the MIME
/// type announced for it.
pub proof fn lemma_mime_table_part_8()
    ensures
        mime_type_for(Some("gz"@)) == "application/x-gzip"@,
        mime_type_for(Some("h"@)) == "text/plain; charset=utf8"@,
        mime_type_for(Some("hdf"@)) == "application/x-hdf"@,
        mime_type_for(Some("hdml"@)) == "text/x-hdml; charset=utf8"@,
        mime_type_for(Some("hhc"@)) == "application/x-oleobject"@,
        mime_type_for(Some("hhk"@)) == "application/octet-stream"@,
        mime_type_for(Some("hhp"@)) == "application/octet-stream"@,
        mime_type_for(Some("hlp"@)) == "application/winhlp"@,
        mime_type_for(Some("hpp"@)) == "text/plain; charset=utf8"@,
        mime_type_for(Some("hqx"@)) == "application/mac-binhex40"@,
        mime_type_for(Some("hta"@)) == "application/hta"@,
        mime_type_for(Some("htc"@)) == "text/x-component; charset=utf8"@,
        mime_type_for(Some("htm"@)) == "text/html; charset=utf8"@,
        mime_type_for(Some("html"@)) == "text/html; charset=utf8"@,
        mime_type_for(Some("htt"@)) == "text/webviewhtml; charset=utf8"@,
        mime_type_for(Some("hxa"@)) == "application/xml"@,
        mime_type_for(Some("hxc"@)) == "application/xml"@,
        mime_type_for(Some("hxd"@)) == "application/octet-stream"@,
        mime_type_for(Some("hxe"@)) == "application/xml"@,
        mime_type_for(Some("hxf"@)) == "application/xml"@,
{
    lemma_table_extensions_1();
    lemma_table_extensions_2();
    lemma_table_extensions_3();
    lemma_table_extensions_4();
    lemma_table_extensions_5();
    lemma_table_extensions_6();
    lemma_table_extensions_7();
    lemma_table_extensions_8();
}

/// The table, entries 161 to 180: each extension and the MIME
/// type announced for it.
pub proof fn lemma_mime_table_part_9()
    ensures
        mime_type_for(Some("hxh"@)) == "application/octet-stream"@,
        mime_type_for(Some("hxi"@)) == "application/octet-stream"@,
        mime_type_for(Some("hxk"@)) == "application/xml"@,
        mime_type_for(Some("hxq"@)) == "application/octet-stream"@,
        mime_type_for(Some("hxr"@)) == "application/octet-stream"@,
        mime_type_for(Some("hxs"@)) == "application/octet-stream"@,
        mime_type_for(Some("hxt"@)) == "text/html; charset=utf8"@,
        mime_type_for(Some("hxv"@)) == "application/xml"@,
        mime_type_for(Some("hxw"@)) == "application/octet-stream"@,
        mime_type_for(Some("hxx"@)) == "text/plain; charset=utf8"@,
        mime_type_for(Some("i"@)) == "text/plain; charset=utf8"@,
        mime_type_for(Some("ico"@)) == "image/x-icon"@,
        mime_type_for(Some("ics"@)) == "application/octet-stream"@,
        mime_type_for(Some("idl"@)) == "text/plain; charset=utf8"@,
        mime_type_for(Some("ief"@)) == "image/ief"@,
        mime_type_for(Some("iii"@)) == "application/x-iphone"@,
        mime_type_for(Some("inc"@)) == "text/plain; charset=utf8"@,
        mime_type_for(Some("inf"@)) == "application/octet-stream"@,
        mime_type_for(Some("inl"@)) == "text/plain; charset=utf8"@,
        mime_type_for(Some("ins"@)) == "application/x-internet-signup"@,
{
    lemma_table_extensions_1();
    lemma_table_extensions_2();
    lemma_table_extensions_3();
    lemma_table_extensions_4();
    lemma_table_extensions_5();
    lemma_table_extensions_6();
    lemma_table_extensions_7();
    lemma_table_extensions_8();
    lemma_table_extensions_9();
}

/// The table, entries 181 to 200: each extension and the MIME
/// type announced for it.
pub proof fn lemma_mime_table_part_10()
    ensures
        mime_type_for(Some("ipa"@)) == "application/x-itunes-ipa"@,
        mime_type_for(Some("ipg"@)) == "application/x-itunes-ipg"@,
        mime_type_for(Some("ipproj"@)) == "text/plain; charset=utf8"@,
        mime_type_for(Some("ipsw"@)) == "application/x-itunes-ipsw"@,
        mime_type_for(Some("iqy"@)) == "text/x-ms-iqy; charset=utf8"@,
        mime_type_for(Some("isp"@)) == "application/x-internet-signup"@,
        mime_type_for(Some("ite"@)) == "application/x-itunes-ite"@,
        mime_type_for(Some("itlp"@)) == "application/x-itunes-itlp"@,
        mime_type_for(Some("itms"@)) == "application/x-itunes-itms"@,
        mime_type_for(Some("itpc"@)) == "application/x-itunes-itpc"@,
        mime_type_for(Some("ivf"@)) == "video/x-ivf"@,
        mime_type_for(Some("jar"@)) == "application/java-archive"@,
        mime_type_for(Some("java"@)) == "application/octet-stream"@,
        mime_type_for(Some("jck"@)) == "application/liquidmotion"@,
        mime_type_for(Some("jcz"@)) == "application/liquidmotion"@,
        mime_type_for(Some("jfif"@)) == "image/pjpeg"@,
        mime_type_for(Some("jnlp"@)) == "application/x-java-jnlp-file"@,
        mime_type_for(Some("jpb"@)) == "application/octet-stream"@,
        mime_type_for(Some("jpe"@)) == "image/jpeg"@,
        mime_type_for(Some("jpeg"@)) == "image/jpeg"@,
{
    lemma_table_extensions_1();
    lemma_table_extensions_2();
    lemma_table_extensions_3();
    lemma_table_extensions_4();
    lemma_table_extensions_5();
    lemma_table_extensions_6();
    lemma_table_extensions_7();
    lemma_table_extensions_8();
    lemma_table_extensions_9();
    lemma_table_extensions_10();
}

/// The table, entries 201 to 220: each extension and the MIME
/// type announced for it.
pub proof fn lemma_mime_table_part_11()
    ensures
        mime_type_for(Some("jpg"@)) == "image/jpeg"@,
        mime_type_for(Some("js"@)) == "application/javascript"@,
        mime_type_for(Some("json"@)) == "application/json"@,
        mime_type_for(Some("jsx"@)) == "text/jscript; charset=utf8"@,
        mime_type_for(Some("jsxbin"@)) == "text/plain; charset=utf8"@,
        mime_type_for(Some("latex"@)) == "application/x-latex"@,
        mime_type_for(Some("library-ms"@)) == "application/windows-library+xml"@,
        mime_type_for(Some("lit"@)) == "application/x-ms-reader"@,
        mime_type_for(Some("loadtest"@)) == "application/xml"@,
        mime_type_for(Some("lpk"@)) == "application/octet-stream"@,
        mime_type_for(Some("lsf"@)) == "video/x-la-asf"@,
        mime_type_for(Some("lst"@)) == "text/plain; charset=utf8"@,
        mime_type_for(Some("lsx"@)) == "video/x-la-asf"@,
        mime_type_for(Some("lzh"@)) == "application/octet-stream"@,
        mime_type_for(Some("m13"@)) == "application/x-msmediaview"@,
        mime_type_for(Some("m14"@)) == "application/x-msmediaview"@,
        mime_type_for(Some("m1v"@)) == "video/mpeg"@,
        mime_type_for(Some("m2t"@)) == "video/vnd.dlna.mpeg-tts"@,
        mime_type_for(Some("m2ts"@)) == "video/vnd.dlna.mpeg-tts"@,
        mime_type_for(Some("m2v"@)) == "video/mpeg"@,
{
    lemma_table_extensions_1();
    lemma_table_extensions_2();
    lemma_table_extensions_3();
    lemma_table_extensions_4();
    lemma_table_extensions_5();
    lemma_table_extensions_6();
    lemma_table_extensions_7();
    lemma_table_extensions_8();
    lemma_table_extensions_9();
    lemma_table_extensions_10();
    lemma_table_extensions_11();
}

/// The table, entries 221 to 240: each extension and the MIME
/// type announced for it.
pub proof fn lemma_mime_table_part_12()
    ensures
        mime_type_for(Some("m3u"@)) == "audio/x-mpegurl"@,
        mime_type_for(Some("m3u8"@)) == "audio/x-mpegurl"@,
        mime_type_for(Some("m4a"@)) == "audio/m4a"@,
        mime_type_for(Some("m4b"@)) == "audio/m4b"@,
        mime_type_for(Some("m4p"@)) == "audio/m4p"@,
        mime_type_for(Some("m4r"@)) == "audio/x-m4r"@,
        mime_type_for(Some("m4v"@)) == "video/x-m4v"@,
        mime_type_for(Some("mac"@)) == "image/x-macpaint"@,
        mime_type_for(Some("mak"@)) == "text/plain; charset=utf8"@,
        mime_type_for(Some("man"@)) == "application/x-troff-man"@,
        mime_type_for(Some("manifest"@)) == "application/x-ms-manifest"@,
        mime_type_for(Some("map"@)) == "text/plain; charset=utf8"@,
        mime_type_for(Some("master"@)) == "application/xml"@,
        mime_type_for(Some("mda"@)) == "application/msaccess"@,
        mime_type_for(Some("mdb"@)) == "application/x-msaccess"@,
        mime_type_for(Some("mde"@)) == "application/msaccess"@,
        mime_type_for(Some("mdp"@)) == "application/octet-stream"@,
        mime_type_for(Some("me"@)) == "application/x-troff-me"@,
        mime_type_for(Some("mfp"@)) == "application/x-shockwave-flash"@,
        mime_type_for(Some("mht"@)) == "message/rfc822"@,
{
    lemma_table_extensions_1();
    lemma_table_extensions_2();
    lemma_table_extensions_3();
    lemma_table_extensions_4();
    lemma_table_extensions_5();
    lemma_table_extensions_6();
    lemma_table_extensions_7();
    lemma_table_extensions_8();
    lemma_table_extensions_9();
    lemma_table_extensions_10();
    lemma_table_extensions_11();
    lemma_table_extensions_12();
}

/// The table, entries 241 to 260: each extension and the MIME
/// type announced for it.
pub proof fn lemma_mime_table_part_13()
    ensures
        mime_type_for(Some("mhtml"@)) == "message/rfc822"@,
        mime_type_for(Some("mid"@)) == "audio/mid"@,
        mime_type_for(Some("midi"@)) == "audio/mid"@,
        mime_type_for(Some("mix"@)) == "application/octet-stream"@,
        mime_type_for(Some("mjs"@)) == "application/javascript"@,
        mime_type_for(Some("mk"@)) == "text/plain; charset=utf8"@,
        mime_type_for(Some("mmf"@)) == "application/x-smaf"@,
        mime_type_for(Some("mno"@)) == "application/xml"@,
        mime_type_for(Some("mny"@)) == "application/x-msmoney"@,
        mime_type_for(Some("mod"@)) == "video/mpeg"@,
        mime_type_for(Some("mov"@)) == "video/quicktime"@,
        mime_type_for(Some("movie"@)) == "video/x-sgi-movie"@,
        mime_type_for(Some("mp2"@)) == "video/mpeg"@,
        mime_type_for(Some("mp2v"@)) == "video/mpeg"@,
        mime_type_for(Some("mp3"@)) == "audio/mpeg"@,
        mime_type_for(Some("mp4"@)) == "video/mp4"@,
        mime_type_for(Some("mp4v"@)) == "video/mp4"@,
        mime_type_for(Some("mpa"@)) == "video/mpeg"@,
        mime_type_for(Some("mpe"@)) == "video/mpeg"@,
        mime_type_for(Some("mpeg"@)) == "video/mpeg"@,
{
    lemma_table_extensions_1();
    lemma_table_extensions_2();
    lemma_table_extensions_3();
    lemma_table_extensions_4();
    lemma_table_extensions_5();
    lemma_table_extensions_6();
    lemma_table_extensions_7();
    lemma_table_extensions_8();
    lemma_table_extensions_9();
    lemma_table_extensions_10();
    lemma_table_extensions_11();
    lemma_table_extensions_12();
    lemma_table_extensions_13();
}

/// The table, entries 261 to 280: each extension and the MIME
/// type announced for it.
pub proof fn lemma_mime_table_part_14()
    ensures
        mime_type_for(Some("mpf"@)) == "application/vnd.ms-mediapackage"@,
        mime_type_for(Some("mpg"@)) == "video/mpeg"@,
        mime_type_for(Some("mpp"@)) == "application/vnd.ms-project"@,
        mime_type_for(Some("mpv2"@)) == "video/mpeg"@,
        mime_type_for(Some("mqv"@)) == "video/quicktime"@,
        mime_type_for(Some("ms"@)) == "application/x-troff-ms"@,
        mime_type_for(Some("msi"@)) == "application/octet-stream"@,
        mime_type_for(Some("mso"@)) == "application/octet-stream"@,
        mime_type_for(Some("mts"@)) == "video/vnd.dlna.mpeg-tts"@,
        mime_type_for(Some("mtx"@)) == "application/xml"@,
        mime_type_for(Some("mvb"@)) == "application/x-msmediaview"@,
        mime_type_for(Some("mvc"@)) == "application/x-miva-compiled"@,
        mime_type_for(Some("mxp"@)) == "application/x-mmxp"@,
        mime_type_for(Some("nc"@)) == "application/x-netcdf"@,
        mime_type_for(Some("nsc"@)) == "video/x-ms-asf"@,
        mime_type_for(Some("nws"@)) == "message/rfc822"@,
        mime_type_for(Some("ocx"@)) == "application/octet-stream"@,
        mime_type_for(Some("oda"@)) == "application/oda"@,
        mime_type_for(Some("odc"@)) == "text/x-ms-odc; charset=utf8"@,
        mime_type_for(Some("odh"@)) == "text/plain; charset=utf8"@,
{
    lemma_table_extensions_1();
    lemma_table_extensions_2();
    lemma_table_extensions_3();
    lemma_table_extensions_4();
    lemma_table_extensions_5();
    lemma_table_extensions_6();
    lemma_table_extensions_7();
    lemma_table_extensions_8();
    lemma_table_extensions_9();
    lemma_table_extensions_10();
    lemma_table_extensions_11();
    lemma_table_extensions_12();
    lemma_table_extensions_13();
    lemma_table_extensions_14();
}

/// The table, entries 281 to 300: each extension and the MIME
/// type announced for it.
pub proof fn lemma_mime_table_part_15()
    ensures
        mime_type_for(Some("odl"@)) == "text/plain; charset=utf8"@,
        mime_type_for(Some("odp"@)) == "application/vnd.oasis.opendocument.presentation"@,
        mime_type_for(Some("ods"@)) == "application/oleobject"@,
        mime_type_for(Some("odt"@)) == "application/vnd.oasis.opendocument.text"@,
        mime_type_for(Some("ogg"@)) == "application/ogg"@,
        mime_type_for(Some("one"@)) == "application/onenote"@,
        mime_type_for(Some("onea"@)) == "application/onenote"@,
        mime_type_for(Some("onepkg"@)) == "application/onenote"@,
        mime_type_for(Some("onetmp"@)) == "application/onenote"@,
        mime_type_for(Some("onetoc"@)) == "application/onenote"@,
        mime_type_for(Some("onetoc2"@)) == "application/onenote"@,
        mime_type_for(Some("orderedtest"@)) == "application/xml"@,
        mime_type_for(Some("osdx"@)) == "application/opensearchdescription+xml"@,
        mime_type_for(Some("otf"@)) == "application/x-font-opentype"@,
        mime_type_for(Some("p10"@)) == "application/pkcs10"@,
        mime_type_for(Some("p12"@)) == "application/x-pkcs12"@,
        mime_type_for(Some("p7b"@)) == "application/x-pkcs7-certificates"@,
        mime_type_for(Some("p7c"@)) == "application/pkcs7-mime"@,
        mime_type_for(Some("p7m"@)) == "application/pkcs7-mime"@,
        mime_type_for(Some("p7r"@)) == "application/x-pkcs7-certreqresp"@,
{
    lemma_table_extensions_1();
    lemma_table_extensions_2();
    lemma_table_extensions_3();
    lemma_table_extensions_4();
    lemma_table_extensions_5();
    lemma_table_extensions_6();
    lemma_table_extensions_7();
    lemma_table_extensions_8();
    lemma_table_extensions_9();
    lemma_table_extensions_10();
    lemma_table_extensions_11();
    lemma_table_extensions_12();
    lemma_table_extensions_13();
    lemma_table_extensions_14();
    lemma_table_extensions_15();
}

/// The table, entries 301 to 320: each extension and the MIME
/// type announced for it.
pub proof fn lemma_mime_table_part_16()
    ensures
        mime_type_for(Some("p7s"@)) == "application/pkcs7-signature"@,
        mime_type_for(Some("pbm"@)) == "image/x-portable-bitmap"@,
        mime_type_for(Some("pcast"@)) == "application/x-podcast"@,
        mime_type_for(Some("pct"@)) == "image/pict"@,
        mime_type_for(Some("pcx"@)) == "application/octet-stream"@,
        mime_type_for(Some("pcz"@)) == "application/octet-stream"@,
        mime_type_for(Some("pdf"@)) == "application/pdf"@,
        mime_type_for(Some("pfb"@)) == "application/octet-stream"@,
        mime_type_for(Some("pfm"@)) == "application/octet-stream"@,
        mime_type_for(Some("pfx"@)) == "application/x-pkcs12"@,
        mime_type_for(Some("pgm"@)) == "image/x-portable-graymap"@,
        mime_type_for(Some("pic"@)) == "image/pict"@,
        mime_type_for(Some("pict"@)) == "image/pict"@,
        mime_type_for(Some("pkgdef"@)) == "text/plain; charset=utf8"@,
        mime_type_for(Some("pkgundef"@)) == "text/plain; charset=utf8"@,
        mime_type_for(Some("pko"@)) == "application/vnd.ms-pki.pko"@,
        mime_type_for(Some("pls"@)) == "audio/scpls"@,
        mime_type_for(Some("pma"@)) == "application/x-perfmon"@,
        mime_type_for(Some("pmc"@)) == "application/x-perfmon"@,
        mime_type_for(Some("pml"@)) == "application/x-perfmon"@,
{
    lemma_table_extensions_1();
    lemma_table_extensions_2();
    lemma_table_extensions_3();
    lemma_table_extensions_4();
    lemma_table_extensions_5();
    lemma_table_extensions_6();
    lemma_table_extensions_7();
    lemma_table_extensions_8();
    lemma_table_extensions_9();
    lemma_table_extensions_10();
    lemma_table_extensions_11();
    lemma_table_extensions_12();
    lemma_table_extensions_13();
    lemma_table_extensions_14();
    lemma_table_extensions_15();
    lemma_table_extensions_16();
}

/// The table, entries 321 to 340: each extension and the MIME
/// type announced for it.
pub proof fn lemma_mime_table_part_17()
    ensures
        mime_type_for(Some("pmr"@)) == "application/x-perfmon"@,
        mime_type_for(Some("pmw"@)) == "application/x-perfmon"@,
        mime_type_for(Some("png"@)) == "image/png"@,
        mime_type_for(Some("pnm"@)) == "image/x-portable-anymap"@,
        mime_type_for(Some("pnt"@)) == "image/x-macpaint"@,
        mime_type_for(Some("pntg"@)) == "image/x-macpaint"@,
        mime_type_for(Some("pnz"@)) == "image/png"@,
        mime_type_for(Some("pot"@)) == "application/vnd.ms-powerpoint"@,
        mime_type_for(Some("potm"@)) == "application/vnd.ms-powerpoint.template.macroEnabled.12"@,
        mime_type_for(Some("potx"@)) == "application/vnd.openxmlformats-officedocument.presentationml.template"@,
        mime_type_for(Some("ppa"@)) == "application/vnd.ms-powerpoint"@,
        mime_type_for(Some("ppam"@)) == "application/vnd.ms-powerpoint.addin.macroEnabled.12"@,
        mime_type_for(Some("ppm"@)) == "image/x-portable-pixmap"@,
        mime_type_for(Some("pps"@)) == "application/vnd.ms-powerpoint"@,
        mime_type_for(Some("ppsm"@)) == "application/vnd.ms-powerpoint.slideshow.macroEnabled.12"@,
        mime_type_for(Some("ppsx"@)) == "application/vnd.openxmlformats-officedocument.presentationml.slideshow"@,
        mime_type_for(Some("ppt"@)) == "application/vnd.ms-powerpoint"@,
        mime_type_for(Some("pptm"@)) == "application/vnd.ms-powerpoint.presentation.macroEnabled.12"@,
        mime_type_for(Some("pptx"@)) == "application/vnd.openxmlformats-officedocument.presentationml.presentation"@,
        mime_type_for(Some("prf"@)) == "application/pics-rules"@,
{
    lemma_table_extensions_1();
    lemma_table_extensions_2();
    lemma_table_extensions_3();
    lemma_table_extensions_4();
    lemma_table_extensions_5();
    lemma_table_extensions_6();
    lemma_table_extensions_7();
    lemma_table_extensions_8();
    lemma_table_extensions_9();
    lemma_table_extensions_10();
    lemma_table_extensions_11();
    lemma_table_extensions_12();
    lemma_table_extensions_13();
    lemma_table_extensions_14();
    lemma_table_extensions_15();
    lemma_table_extensions_16();
    lemma_table_extensions_17();
}

/// The table, entries 341 to 360: each extension and the MIME
/// type announced for it.
pub proof fn lemma_mime_table_part_18()
    ensures
        mime_type_for(Some("prm"@)) == "application/octet-stream"@,
        mime_type_for(Some("prx"@)) == "application/octet-stream"@,
        mime_type_for(Some("ps"@)) == "application/postscript"@,
        mime_type_for(Some("psc1"@)) == "application/PowerShell"@,
        mime_type_for(Some("psd"@)) == "application/octet-stream"@,
        mime_type_for(Some("psess"@)) == "application/xml"@,
        mime_type_for(Some("psm"@)) == "application/octet-stream"@,
        mime_type_for(Some("psp"@)) == "application/octet-stream"@,
        mime_type_for(Some("pub"@)) == "application/x-mspublisher"@,
        mime_type_for(Some("pwz"@)) == "application/vnd.ms-powerpoint"@,
        mime_type_for(Some("qht"@)) == "text/x-html-insertion; charset=utf8"@,
        mime_type_for(Some("qhtm"@)) == "text/x-html-insertion; charset=utf8"@,
        mime_type_for(Some("qt"@)) == "video/quicktime"@,
        mime_type_for(Some("qti"@)) == "image/x-quicktime"@,
        mime_type_for(Some("qtif"@)) == "image/x-quicktime"@,
        mime_type_for(Some("qtl"@)) == "application/x-quicktimeplayer"@,
        mime_type_for(Some("qxd"@)) == "application/octet-stream"@,
        mime_type_for(Some("ra"@)) == "audio/x-pn-realaudio"@,
        mime_type_for(Some("ram"@)) == "audio/x-pn-realaudio"@,
        mime_type_for(Some("rar"@)) == "application/octet-stream"@,
{
    lemma_table_extensions_1();
    lemma_table_extensions_2();
    lemma_table_extensions_3();
    lemma_table_extensions_4();
    lemma_table_extensions_5();
    lemma_table_extensions_6();
    lemma_table_extensions_7();
    lemma_table_extensions_8();
    lemma_table_extensions_9();
    lemma_table_extensions_10();
    lemma_table_extensions_11();
    lemma_table_extensions_12();
    lemma_table_extensions_13();
    lemma_table_extensions_14();
    lemma_table_extensions_15();
    lemma_table_extensions_16();
    lemma_table_extensions_17();
    lemma_table_extensions_18();
}

/// The table, entries 361 to 380: each extension and the MIME
/// type announced for it.
pub proof fn lemma_mime_table_part_19()
    ensures
        mime_type_for(Some("ras"@)) == "image/x-cmu-raster"@,
        mime_type_for(Some("rat"@)) == "application/rat-file"@,
        mime_type_for(Some("rc"@)) == "text/plain; charset=utf8"@,
        mime_type_for(Some("rc2"@)) == "text/plain; charset=utf8"@,
        mime_type_for(Some("rct"@)) == "text/plain; charset=utf8"@,
        mime_type_for(Some("rdlc"@)) == "application/xml"@,
        mime_type_for(Some("resx"@)) == "application/xml"@,
        mime_type_for(Some("rf"@)) == "image/vnd.rn-realflash"@,
        mime_type_for(Some("rgb"@)) == "image/x-rgb"@,
        mime_type_for(Some("rgs"@)) == "text/plain; charset=utf8"@,
        mime_type_for(Some("rm"@)) == "application/vnd.rn-realmedia"@,
        mime_type_for(Some("rmi"@)) == "audio/mid"@,
        mime_type_for(Some("rmp"@)) == "application/vnd.rn-rn_music_package"@,
        mime_type_for(Some("roff"@)) == "application/x-troff"@,
        mime_type_for(Some("rpm"@)) == "audio/x-pn-realaudio-plugin"@,
        mime_type_for(Some("rqy"@)) == "text/x-ms-rqy; charset=utf8"@,
        mime_type_for(Some("rtf"@)) == "application/rtf"@,
        mime_type_for(Some("rtx"@)) == "text/richtext; charset=utf8"@,
        mime_type_for(Some("ruleset"@)) == "application/xml"@,
        mime_type_for(Some("s"@)) == "text/plain; charset=utf8"@,
{
    lemma_table_extensions_1();
    lemma_table_extensions_2();
    lemma_table_extensions_3();
    lemma_table_extensions_4();
    lemma_table_extensions_5();
    lemma_table_extensions_6();
    lemma_table_extensions_7();
    lemma_table_extensions_8();
    lemma_table_extensions_9();
    lemma_table_extensions_10();
    lemma_table_extensions_11();
    lemma_table_extensions_12();
    lemma_table_extensions_13();
    lemma_table_extensions_14();
    lemma_table_extensions_15();
    lemma_table_extensions_16();
    lemma_table_extensions_17();
    lemma_table_extensions_18();
    lemma_table_extensions_19();
}

/// The table, entries 381 to 400: each extension and the MIME
/// type announced for it.
pub proof fn lemma_mime_table_part_20()
    ensures
        mime_type_for(Some("safariextz"@)) == "application/x-safari-safariextz"@,
        mime_type_for(Some("scd"@)) == "application/x-msschedule"@,
        mime_type_for(Some("sct"@)) == "text/scriptlet; charset=utf8"@,
        mime_type_for(Some("sd2"@)) == "audio/x-sd2"@,
        mime_type_for(Some("sdp"@)) == "application/sdp"@,
        mime_type_for(Some("sea"@)) == "application/octet-stream"@,
        mime_type_for(Some("searchConnector-ms"@)) == "application/windows-search-connector+xml"@,
        mime_type_for(Some("setpay"@)) == "application/set-payment-initiation"@,
        mime_type_for(Some("setreg"@)) == "application/set-registration-initiation"@,
        mime_type_for(Some("settings"@)) == "application/xml"@,
        mime_type_for(Some("sfnt"@)) == "application/font-sfnt"@,
        mime_type_for(Some("sgimb"@)) == "application/x-sgimb"@,
        mime_type_for(Some("sgml"@)) == "text/sgml; charset=utf8"@,
        mime_type_for(Some("sh"@)) == "application/x-sh"@,
        mime_type_for(Some("shar"@)) == "application/x-shar"@,
        mime_type_for(Some("shtml"@)) == "text/html; charset=utf8"@,
        mime_type_for(Some("sit"@)) == "application/x-stuffit"@,
        mime_type_for(Some("sitemap"@)) == "application/xml"@,
        mime_type_for(Some("skin"@)) == "application/xml"@,
        mime_type_for(Some("sldm"@)) == "application/vnd.ms-powerpoint.slide.macroEnabled.12"@,
{
    lemma_table_extensions_1();
    lemma_table_extensions_2();
    lemma_table_extensions_3();
    lemma_table_extensions_4();
    lemma_table_extensions_5();
    lemma_table_extensions_6();
    lemma_table_extensions_7();
    lemma_table_extensions_8();
    lemma_table_extensions_9();
    lemma_table_extensions_10();
    lemma_table_extensions_11();
    lemma_table_extensions_12();
    lemma_table_extensions_13();
    lemma_table_extensions_14();
    lemma_table_extensions_15();
    lemma_table_extensions_16();
    lemma_table_extensions_17();
    lemma_table_extensions_18();
    lemma_table_extensions_19();
    lemma_table_extensions_20();
}

/// The table, entries 401 to 420: each extension and the MIME
/// type announced for it.
pub proof fn lemma_mime_table_part_21()
    ensures
        mime_type_for(Some("sldx"@)) == "application/vnd.openxmlformats-officedocument.presentationml.slide"@,
        mime_type_for(Some("slk"@)) == "application/vnd.ms-excel"@,
        mime_type_for(Some("sln"@)) == "text/plain; charset=utf8"@,
        mime_type_for(Some("slupkg-ms"@)) == "application/x-ms-license"@,
        mime_type_for(Some("smd"@)) == "audio/x-smd"@,
        mime_type_for(Some("smi"@)) == "application/octet-stream"@,
        mime_type_for(Some("smx"@)) == "audio/x-smd"@,
        mime_type_for(Some("smz"@)) == "audio/x-smd"@,
        mime_type_for(Some("snd"@)) == "audio/basic"@,
        mime_type_for(Some("snippet"@)) == "application/xml"@,
        mime_type_for(Some("snp"@)) == "application/octet-stream"@,
        mime_type_for(Some("sol"@)) == "text/plain; charset=utf8"@,
        mime_type_for(Some("sor"@)) == "text/plain; charset=utf8"@,
        mime_type_for(Some("spc"@)) == "application/x-pkcs7-certificates"@,
        mime_type_for(Some("spl"@)) == "application/futuresplash"@,
        mime_type_for(Some("src"@)) == "application/x-wais-source"@,
        mime_type_for(Some("srf"@)) == "text/plain; charset=utf8"@,
        mime_type_for(Some("ssisdeploymentmanifest"@)) == "application/xml"@,
        mime_type_for(Some("ssm"@)) == "application/streamingmedia"@,
        mime_type_for(Some("sst"@)) == "application/vnd.ms-pki.certstore"@,
{
    lemma_table_extensions_1();
    lemma_table_extensions_2();
    lemma_table_extensions_3();
    lemma_table_extensions_4();
    lemma_table_extensions_5();
    lemma_table_extensions_6();
    lemma_table_extensions_7();
    lemma_table_extensions_8();
    lemma_table_extensions_9();
    lemma_table_extensions_10();
    lemma_table_extensions_11();
    lemma_table_extensions_12();
    lemma_table_extensions_13();
    lemma_table_extensions_14();
    lemma_table_extensions_15();
    lemma_table_extensions_16();
    lemma_table_extensions_17();
    lemma_table_extensions_18();
    lemma_table_extensions_19();
    lemma_table_extensions_20();
    lemma_table_extensions_21();
}

/// The table, entries 421 to 440: each extension and the MIME
/// type announced for it.
pub proof fn lemma_mime_table_part_22()
    ensures
        mime_type_for(Some("stl"@)) == "application/vnd.ms-pki.stl"@,
        mime_type_for(Some("sv4cpio"@)) == "application/x-sv4cpio"@,
        mime_type_for(Some("sv4crc"@)) == "application/x-sv4crc"@,
        mime_type_for(Some("svc"@)) == "application/xml"@,
        mime_type_for(Some("svg"@)) == "image/svg+xml"@,
        mime_type_for(Some("swf"@)) == "application/x-shockwave-flash"@,
        mime_type_for(Some("t"@)) == "application/x-troff"@,
        mime_type_for(Some("tar"@)) == "application/x-tar"@,
        mime_type_for(Some("tcl"@)) == "application/x-tcl"@,
        mime_type_for(Some("testrunconfig"@)) == "application/xml"@,
        mime_type_for(Some("testsettings"@)) == "application/xml"@,
        mime_type_for(Some("tex"@)) == "application/x-tex"@,
        mime_type_for(Some("texi"@)) == "application/x-texinfo"@,
        mime_type_for(Some("texinfo"@)) == "application/x-texinfo"@,
        mime_type_for(Some("tgz"@)) == "application/x-compressed"@,
        mime_type_for(Some("thmx"@)) == "application/vnd.ms-officetheme"@,
        mime_type_for(Some("thn"@)) == "application/octet-stream"@,
        mime_type_for(Some("tif"@)) == "image/tiff"@,
        mime_type_for(Some("tiff"@)) == "image/tiff"@,
        mime_type_for(Some("tlh"@)) == "text/plain; charset=utf8"@,
{
    lemma_table_extensions_1();
    lemma_table_extensions_2();
    lemma_table_extensions_3();
    lemma_table_extensions_4();
    lemma_table_extensions_5();
    lemma_table_extensions_6();
    lemma_table_extensions_7();
    lemma_table_extensions_8();
    lemma_table_extensions_9();
    lemma_table_extensions_10();
    lemma_table_extensions_11();
    lemma_table_extensions_12();
    lemma_table_extensions_13();
    lemma_table_extensions_14();
    lemma_table_extensions_15();
    lemma_table_extensions_16();
    lemma_table_extensions_17();
    lemma_table_extensions_18();
    lemma_table_extensions_19();
    lemma_table_extensions_20();
    lemma_table_extensions_21();
    lemma_table_extensions_22();
}

/// The table, entries 441 to 460: each extension and the MIME
/// type announced for it.
pub proof fn lemma_mime_table_part_23()
    ensures
        mime_type_for(Some("tli"@)) == "text/plain; charset=utf8"@,
        mime_type_for(Some("toc"@)) == "application/octet-stream"@,
        mime_type_for(Some("tr"@)) == "application/x-troff"@,
        mime_type_for(Some("trm"@)) == "application/x-msterminal"@,
        mime_type_for(Some("trx"@)) == "application/xml"@,
        mime_type_for(Some("ts"@)) == "video/vnd.dlna.mpeg-tts"@,
        mime_type_for(Some("tsv"@)) == "text/tab-separated-values; charset=utf8"@,
        mime_type_for(Some("ttf"@)) == "application/x-font-ttf"@,
        mime_type_for(Some("tts"@)) == "video/vnd.dlna.mpeg-tts"@,
        mime_type_for(Some("txt"@)) == "text/plain; charset=utf8"@,
        mime_type_for(Some("u32"@)) == "application/octet-stream"@,
        mime_type_for(Some("uls"@)) == "text/iuls; charset=utf8"@,
        mime_type_for(Some("user"@)) == "text/plain; charset=utf8"@,
        mime_type_for(Some("ustar"@)) == "application/x-ustar"@,
        mime_type_for(Some("vb"@)) == "text/plain; charset=utf8"@,
        mime_type_for(Some("vbdproj"@)) == "text/plain; charset=utf8"@,
        mime_type_for(Some("vbk"@)) == "video/mpeg"@,
        mime_type_for(Some("vbproj"@)) == "text/plain; charset=utf8"@,
        mime_type_for(Some("vbs"@)) == "text/vbscript; charset=utf8"@,
        mime_type_for(Some("vcf"@)) == "text/x-vcard; charset=utf8"@,
{
    lemma_table_extensions_1();
    lemma_table_extensions_2();
    lemma_table_extensions_3();
    lemma_table_extensions_4();
    lemma_table_extensions_5();
    lemma_table_extensions_6();
    lemma_table_extensions_7();
    lemma_table_extensions_8();
    lemma_table_extensions_9();
    lemma_table_extensions_10();
    lemma_table_extensions_11();
    lemma_table_extensions_12();
    lemma_table_extensions_13();
    lemma_table_extensions_14();
    lemma_table_extensions_15();
    lemma_table_extensions_16();
    lemma_table_extensions_17();
    lemma_table_extensions_18();
    lemma_table_extensions_19();
    lemma_table_extensions_20();
    lemma_table_extensions_21();
    lemma_table_extensions_22();
    lemma_table_extensions_23();
}

/// The table, entries 461 to 480: each extension and the MIME
/// type announced for it.
pub proof fn lemma_mime_table_part_24()
    ensures
        mime_type_for(Some("vcproj"@)) == "Application/xml"@,
        mime_type_for(Some("vcs"@)) == "text/plain; charset=utf8"@,
        mime_type_for(Some("vcxproj"@)) == "Application/xml"@,
        mime_type_for(Some("vddproj"@)) == "text/plain; charset=utf8"@,
        mime_type_for(Some("vdp"@)) == "text/plain; charset=utf8"@,
        mime_type_for(Some("vdproj"@)) == "text/plain; charset=utf8"@,
        mime_type_for(Some("vdx"@)) == "application/vnd.ms-visio.viewer"@,
        mime_type_for(Some("vml"@)) == "application/xml"@,
        mime_type_for(Some("vscontent"@)) == "application/xml"@,
        mime_type_for(Some("vsct"@)) == "application/xml"@,
        mime_type_for(Some("vsd"@)) == "application/vnd.visio"@,
        mime_type_for(Some("vsi"@)) == "application/ms-vsi"@,
        mime_type_for(Some("vsix"@)) == "application/vsix"@,
        mime_type_for(Some("vsixlangpack"@)) == "application/xml"@,
        mime_type_for(Some("vsixmanifest"@)) == "application/xml"@,
        mime_type_for(Some("vsmdi"@)) == "application/xml"@,
        mime_type_for(Some("vspscc"@)) == "text/plain; charset=utf8"@,
        mime_type_for(Some("vss"@)) == "application/vnd.visio"@,
        mime_type_for(Some("vsscc"@)) == "text/plain; charset=utf8"@,
        mime_type_for(Some("vssettings"@)) == "application/xml"@,
{
    lemma_table_extensions_1();
    lemma_table_extensions_2();
    lemma_table_extensions_3();
    lemma_table_extensions_4();
    lemma_table_extensions_5();
    lemma_table_extensions_6();
    lemma_table_extensions_7();
    lemma_table_extensions_8();
    lemma_table_extensions_9();
    lemma_table_extensions_10();
    lemma_table_extensions_11();
    lemma_table_extensions_12();
    lemma_table_extensions_13();
    lemma_table_extensions_14();
    lemma_table_extensions_15();
    lemma_table_extensions_16();
    lemma_table_extensions_17();
    lemma_table_extensions_18();
    lemma_table_extensions_19();
    lemma_table_extensions_20();
    lemma_table_extensions_21();
    lemma_table_extensions_22();
    lemma_table_extensions_23();
    lemma_table_extensions_24();
}

/// The table, entries 481 to 500: each extension and the MIME
/// type announced for it.
pub proof fn lemma_mime_table_part_25()
    ensures
        mime_type_for(Some("vssscc"@)) == "text/plain; charset=utf8"@,
        mime_type_for(Some("vst"@)) == "application/vnd.visio"@,
        mime_type_for(Some("vstemplate"@)) == "application/xml"@,
        mime_type_for(Some("vsto"@)) == "application/x-ms-vsto"@,
        mime_type_for(Some("vsw"@)) == "application/vnd.visio"@,
        mime_type_for(Some("vsx"@)) == "application/vnd.visio"@,
        mime_type_for(Some("vtx"@)) == "application/vnd.visio"@,
        mime_type_for(Some("wasm"@)) == "application/wasm"@,
        mime_type_for(Some("wav"@)) == "audio/wav"@,
        mime_type_for(Some("wave"@)) == "audio/wav"@,
        mime_type_for(Some("wax"@)) == "audio/x-ms-wax"@,
        mime_type_for(Some("wbk"@)) == "application/msword"@,
        mime_type_for(Some("wbmp"@)) == "image/vnd.wap.wbmp"@,
        mime_type_for(Some("wcm"@)) == "application/vnd.ms-works"@,
        mime_type_for(Some("wdb"@)) == "application/vnd.ms-works"@,
        mime_type_for(Some("wdp"@)) == "image/vnd.ms-photo"@,
        mime_type_for(Some("webarchive"@)) == "application/x-safari-webarchive"@,
        mime_type_for(Some("webtest"@)) == "application/xml"@,
        mime_type_for(Some("wiq"@)) == "application/xml"@,
        mime_type_for(Some("wiz"@)) == "application/msword"@,
{
    lemma_table_extensions_1();
    lemma_table_extensions_2();
    lemma_table_extensions_3();
    lemma_table_extensions_4();
    lemma_table_extensions_5();
    lemma_table_extensions_6();
    lemma_table_extensions_7();
    lemma_table_extensions_8();
    lemma_table_extensions_9();
    lemma_table_extensions_10();
    lemma_table_extensions_11();
    lemma_table_extensions_12();
    lemma_table_extensions_13();
    lemma_table_extensions_14();
    lemma_table_extensions_15();
    lemma_table_extensions_16();
    lemma_table_extensions_17();
    lemma_table_extensions_18();
    lemma_table_extensions_19();
    lemma_table_extensions_20();
    lemma_table_extensions_21();
    lemma_table_extensions_22();
    lemma_table_extensions_23();
    lemma_table_extensions_24();
    lemma_table_extensions_25();
}

/// The table, entries 501 to 520: each extension and the MIME
/// type announced for it.
pub proof fn lemma_mime_table_part_26()
    ensures
        mime_type_for(Some("wks"@)) == "application/vnd.ms-works"@,
        mime_type_for(Some("wlmp"@)) == "application/wlmoviemaker"@,
        mime_type_for(Some("wlpginstall"@)) == "application/x-wlpg-detect"@,
        mime_type_for(Some("wlpginstall3"@)) == "application/x-wlpg3-detect"@,
        mime_type_for(Some("wm"@)) == "video/x-ms-wm"@,
        mime_type_for(Some("wma"@)) == "audio/x-ms-wma"@,
        mime_type_for(Some("wmd"@)) == "application/x-ms-wmd"@,
        mime_type_for(Some("wmf"@)) == "application/x-msmetafile"@,
        mime_type_for(Some("wml"@)) == "text/vnd.wap.wml; charset=utf8"@,
        mime_type_for(Some("wmlc"@)) == "application/vnd.wap.wmlc"@,
        mime_type_for(Some("wmls"@)) == "text/vnd.wap.wmlscript; charset=utf8"@,
        mime_type_for(Some("wmlsc"@)) == "application/vnd.wap.wmlscriptc"@,
        mime_type_for(Some("wmp"@)) == "video/x-ms-wmp"@,
        mime_type_for(Some("wmv"@)) == "video/x-ms-wmv"@,
        mime_type_for(Some("wmx"@)) == "video/x-ms-wmx"@,
        mime_type_for(Some("wmz"@)) == "application/x-ms-wmz"@,
        mime_type_for(Some("woff"@)) == "application/font-woff"@,
        mime_type_for(Some("woff2"@)) == "application/font-woff2"@,
        mime_type_for(Some("wpl"@)) == "application/vnd.ms-wpl"@,
        mime_type_for(Some("wps"@)) == "application/vnd.ms-works"@,
{
    lemma_table_extensions_1();
    lemma_table_extensions_2();
    lemma_table_extensions_3();
    lemma_table_extensions_4();
    lemma_table_extensions_5();
    lemma_table_extensions_6();
    lemma_table_extensions_7();
    lemma_table_extensions_8();
    lemma_table_extensions_9();
    lemma_table_extensions_10();
    lemma_table_extensions_11();
    lemma_table_extensions_12();
    lemma_table_extensions_13();
    lemma_table_extensions_14();
    lemma_table_extensions_15();
    lemma_table_extensions_16();
    lemma_table_extensions_17();
    lemma_table_extensions_18();
    lemma_table_extensions_19();
    lemma_table_extensions_20();
    lemma_table_extensions_21();
    lemma_table_extensions_22();
    lemma_table_extensions_23();
    lemma_table_extensions_24();
    lemma_table_extensions_25();
    lemma_table_extensions_26();
}

/// The table, entries 521 to 540: each extension and the MIME
/// type announced for it.
pub proof fn lemma_mime_table_part_27()
    ensures
        mime_type_for(Some("wri"@)) == "application/x-mswrite"@,
        mime_type_for(Some("wrl"@)) == "x-world/x-vrml"@,
        mime_type_for(Some("wrz"@)) == "x-world/x-vrml"@,
        mime_type_for(Some("wsc"@)) == "text/scriptlet; charset=utf8"@,
        mime_type_for(Some("wsdl"@)) == "application/xml"@,
        mime_type_for(Some("wvx"@)) == "video/x-ms-wvx"@,
        mime_type_for(Some("x"@)) == "application/directx"@,
        mime_type_for(Some("xaf"@)) == "x-world/x-vrml"@,
        mime_type_for(Some("xaml"@)) == "application/xaml+xml"@,
        mime_type_for(Some("xap"@)) == "application/x-silverlight-app"@,
        mime_type_for(Some("xbap"@)) == "application/x-ms-xbap"@,
        mime_type_for(Some("xbm"@)) == "image/x-xbitmap"@,
        mime_type_for(Some("xdr"@)) == "text/plain; charset=utf8"@,
        mime_type_for(Some("xht"@)) == "application/xhtml+xml"@,
        mime_type_for(Some("xhtml"@)) == "application/xhtml+xml"@,
        mime_type_for(Some("xla"@)) == "application/vnd.ms-excel"@,
        mime_type_for(Some("xlam"@)) == "application/vnd.ms-excel.addin.macroEnabled.12"@,
        mime_type_for(Some("xlc"@)) == "application/vnd.ms-excel"@,
        mime_type_for(Some("xld"@)) == "application/vnd.ms-excel"@,
        mime_type_for(Some("xlk"@)) == "application/vnd.ms-excel"@,
{
    lemma_table_extensions_1();
    lemma_table_extensions_2();
    lemma_table_extensions_3();
    lemma_table_extensions_4();
    lemma_table_extensions_5();
    lemma_table_extensions_6();
    lemma_table_extensions_7();
    lemma_table_extensions_8();
    lemma_table_extensions_9();
    lemma_table_extensions_10();
    lemma_table_extensions_11();
    lemma_table_extensions_12();
    lemma_table_extensions_13();
    lemma_table_extensions_14();
    lemma_table_extensions_15();
    lemma_table_extensions_16();
    lemma_table_extensions_17();
    lemma_table_extensions_18();
    lemma_table_extensions_19();
    lemma_table_extensions_20();
    lemma_table_extensions_21();
    lemma_table_extensions_22();
    lemma_table_extensions_23();
    lemma_table_extensions_24();
    lemma_table_extensions_25();
    lemma_table_extensions_26();
    lemma_table_extensions_27();
}

/// The table, entries 541 to 560: each extension and the MIME
/// type announced for it.
pub proof fn lemma_mime_table_part_28()
    ensures
        mime_type_for(Some("xll"@)) == "application/vnd.ms-excel"@,
        mime_type_for(Some("xlm"@)) == "application/vnd.ms-excel"@,
        mime_type_for(Some("xls"@)) == "application/vnd.ms-excel"@,
        mime_type_for(Some("xlsb"@)) == "application/vnd.ms-excel.sheet.binary.macroEnabled.12"@,
        mime_type_for(Some("xlsm"@)) == "application/vnd.ms-excel.sheet.macroEnabled.12"@,
        mime_type_for(Some("xlsx"@)) == "application/vnd.openxmlformats-officedocument.spreadsheetml.sheet"@,
        mime_type_for(Some("xlt"@)) == "application/vnd.ms-excel"@,
        mime_type_for(Some("xltm"@)) == "application/vnd.ms-excel.template.macroEnabled.12"@,
        mime_type_for(Some("xltx"@)) == "application/vnd.openxmlformats-officedocument.spreadsheetml.template"@,
        mime_type_for(Some("xlw"@)) == "application/vnd.ms-excel"@,
        mime_type_for(Some("xml"@)) == "application/xml"@,
        mime_type_for(Some("xmta"@)) == "application/xml"@,
        mime_type_for(Some("xof"@)) == "x-world/x-vrml"@,
        mime_type_for(Some("xoml"@)) == "text/plain; charset=utf8"@,
        mime_type_for(Some("xpm"@)) == "image/x-xpixmap"@,
        mime_type_for(Some("xps"@)) == "application/vnd.ms-xpsdocument"@,
        mime_type_for(Some("xrm-ms"@)) == "application/xml"@,
        mime_type_for(Some("xsc"@)) == "application/xml"@,
        mime_type_for(Some("xsd"@)) == "application/xml"@,
        mime_type_for(Some("xsf"@)) == "application/xml"@,
{
    lemma_table_extensions_1();
    lemma_table_extensions_2();
    lemma_table_extensions_3();
    lemma_table_extensions_4();
    lemma_table_extensions_5();
    lemma_table_extensions_6();
    lemma_table_extensions_7();
    lemma_table_extensions_8();
    lemma_table_extensions_9();
    lemma_table_extensions_10();
    lemma_table_extensions_11();
    lemma_table_extensions_12();
    lemma_table_extensions_13();
    lemma_table_extensions_14();
    lemma_table_extensions_15();
    lemma_table_extensions_16();
    lemma_table_extensions_17();
    lemma_table_extensions_18();
    lemma_table_extensions_19();
    lemma_table_extensions_20();
    lemma_table_extensions_21();
    lemma_table_extensions_22();
    lemma_table_extensions_23();
    lemma_table_extensions_24();
    lemma_table_extensions_25();
    lemma_table_extensions_26();
    lemma_table_extensions_27();
    lemma_table_extensions_28();
}

/// The table, entries 561 to 568: each extension and the MIME
/// type announced for it.
pub proof fn lemma_mime_table_part_29()
    ensures
        mime_type_for(Some("xsl"@)) == "application/xml"@,
        mime_type_for(Some("xslt"@)) == "application/xslt+xml"@,
        mime_type_for(Some("xsn"@)) == "application/octet-stream"@,
        mime_type_for(Some("xss"@)) == "application/xml"@,
        mime_type_for(Some("xtp"@)) == "application/octet-stream"@,
        mime_type_for(Some("xwd"@)) == "image/x-xwindowdump"@,
        mime_type_for(Some("z"@)) == "application/x-compress"@,
        mime_type_for(Some("zip"@)) == "application/zip"@,
{
    lemma_table_extensions_1();
    lemma_table_extensions_2();
    lemma_table_extensions_3();
    lemma_table_extensions_4();
    lemma_table_extensions_5();
    lemma_table_extensions_6();
    lemma_table_extensions_7();
    lemma_table_extensions_8();
    lemma_table_extensions_9();
    lemma_table_extensions_10();
    lemma_table_extensions_11();
    lemma_table_extensions_12();
    lemma_table_extensions_13();
    lemma_table_extensions_14();
    lemma_table_extensions_15();
    lemma_table_extensions_16();
    lemma_table_extensions_17();
    lemma_table_extensions_18();
    lemma_table_extensions_19();
    lemma_table_extensions_20();
    lemma_table_extensions_21();
    lemma_table_extensions_22();
    lemma_table_extensions_23();
    lemma_table_extensions_24();
    lemma_table_extensions_25();
    lemma_table_extensions_26();
    lemma_table_extensions_27();
    lemma_table_extensions_28();
    lemma_table_extensions_29();
}


/// A file without an extension, or with an empty one, is served as
/// `application/octet-stream`.
pub proof fn lemma_mime_without_extension()
    ensures
        mime_type_for(None) == "application/octet-stream"@,
        mime_type_for(Some(Seq::<char>::empty())) == "application/octet-stream"@,
{
    lemma_table_extensions_1();
    lemma_table_extensions_2();
    lemma_table_extensions_3();
    lemma_table_extensions_4();
    lemma_table_extensions_5();
    lemma_table_extensions_6();
    lemma_table_extensions_7();
    lemma_table_extensions_8();
    lemma_table_extensions_9();
    lemma_table_extensions_10();
    lemma_table_extensions_11();
    lemma_table_extensions_12();
    lemma_table_extensions_13();
    lemma_table_extensions_14();
    lemma_table_extensions_15();
    lemma_table_extensions_16();
    lemma_table_extensions_17();
    lemma_table_extensions_18();
    lemma_table_extensions_19();
    lemma_table_extensions_20();
    lemma_table_extensions_21();
    lemma_table_extensions_22();
    lemma_table_extensions_23();
    lemma_table_extensions_24();
    lemma_table_extensions_25();
    lemma_table_extensions_26();
    lemma_table_extensions_27();
    lemma_table_extensions_28();
    lemma_table_extensions_29();
}

} // verus!
