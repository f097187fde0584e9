//! Building the downloader tool's argument list from a download request.

use vstd::prelude::*;
use vstd::string::*;
use crate::text::{option_text, push_text, text_is, texts};

verus! {

/// What a caller asks of one download.
#[derive(Debug, Clone)]
pub struct DownloadRequest {
    /// Address of the video or playlist.
    pub url: String,
    /// Directory that receives the downloaded file.
    pub save_path: String,
    /// Greatest picture height that is acceptable.
    pub quality: String,
    /// Container of the resulting file.
    pub format: String,
    /// Identifier under which progress is reported.
    pub id: String,
    /// Where the wanted section begins, if the download is trimmed.
    pub start_time: Option<String>,
    /// Where the wanted section ends, if the download is trimmed.
    pub end_time: Option<String>,
    /// Whether metadata and thumbnail are written into the file.
    pub embed_metadata: bool,
    /// Preferred video codec.
    pub codec: String,
    /// Preferred audio codec; `best` leaves the choice to the tool.
    pub audio_codec: String,
}

/// The mathematical content of a [`DownloadRequest`].
pub struct RequestView {
    pub url: Seq<char>,
    pub save_path: Seq<char>,
    pub quality: Seq<char>,
    pub format: Seq<char>,
    pub id: Seq<char>,
    pub start_time: Option<Seq<char>>,
    pub end_time: Option<Seq<char>>,
    pub embed_metadata: bool,
    pub codec: Seq<char>,
    pub audio_codec: Seq<char>,
}

impl View for DownloadRequest {
    type V = RequestView;

    open spec fn view(&self) -> RequestView {
        RequestView {
            url: self.url@,
            save_path: self.save_path@,
            quality: self.quality@,
            format: self.format@,
            id: self.id@,
            start_time: option_text(self.start_time),
            end_time: option_text(self.end_time),
            embed_metadata: self.embed_metadata,
            codec: self.codec@,
            audio_codec: self.audio_codec@,
        }
    }
}

/// The output path template: the destination directory followed by a file
/// name made of the video's title and extension.
pub open spec fn output_template(save_path: Seq<char>) -> Seq<char> {
    save_path + "/%(title)s.%(ext)s"@
}

/// The arguments every download starts with: where to write, and progress
/// reported one line at a time.
pub open spec fn output_args(save_path: Seq<char>) -> Seq<Seq<char>> {
    seq!["-o"@, output_template(save_path), "--newline"@]
}

/// The arguments that ask for metadata and thumbnail to be embedded.
pub open spec fn embed_args(embed_metadata: bool) -> Seq<Seq<char>> {
    if embed_metadata {
        seq!["--embed-metadata"@, "--embed-thumbnail"@]
    } else {
        Seq::empty()
    }
}

/// The arguments that point the downloader at the transcoder, when its
/// location is known.
pub open spec fn transcoder_args(transcoder: Option<Seq<char>>) -> Seq<Seq<char>> {
    match transcoder {
        Some(path) => seq!["--ffmpeg-location"@, path],
        None => Seq::empty(),
    }
}

/// Whether the request asks for a section of the video: both markers are
/// present and neither is empty.
pub open spec fn wants_trim(start: Option<Seq<char>>, end: Option<Seq<char>>) -> bool {
    &&& start matches Some(s)
    &&& end matches Some(e)
    &&& s.len() > 0
    &&& e.len() > 0
}

/// The section expression `*<start> - <end>`.
pub open spec fn trim_range(start: Seq<char>, end: Seq<char>) -> Seq<char> {
    "*"@ + start + " - "@ + end
}

/// The arguments that restrict the download to a section.
pub open spec fn trim_args(start: Option<Seq<char>>, end: Option<Seq<char>>) -> Seq<Seq<char>> {
    if wants_trim(start, end) {
        seq!["--download-sections"@, trim_range(start->0, end->0)]
    } else {
        Seq::empty()
    }
}

/// Whether `format` names a container that holds audio only.
pub open spec fn is_audio_format(format: Seq<char>) -> bool {
    format == "mp3"@ || format == "wav"@ || format == "m4a"@
}

/// The stream filter for a video codec preference; empty for any value that
/// is not one of the three known codecs.
pub open spec fn codec_filter(codec: Seq<char>) -> Seq<char> {
    if codec == "h264"@ {
        "[vcodec^=avc1]"@
    } else if codec == "vp9"@ {
        "[vcodec^=vp9]"@
    } else if codec == "av1"@ {
        "[vcodec^=av01]"@
    } else {
        Seq::empty()
    }
}

/// The stream selection expression for a video download:
/// `bestvideo[height<=Q]{V}+bestaudio/best[height<=Q]/best`.
pub open spec fn format_selector(quality: Seq<char>, codec: Seq<char>) -> Seq<char> {
    "bestvideo[height<="@ + quality + "]"@ + codec_filter(codec) + "+bestaudio/best[height<="@
        + quality + "]/best"@
}

/// The audio format handed to the tool when only audio is extracted: the
/// preferred codec, or the container itself when the preference is `best`.
pub open spec fn extracted_audio_format(format: Seq<char>, audio_codec: Seq<char>) -> Seq<char> {
    if audio_codec == "best"@ {
        format
    } else {
        audio_codec
    }
}

/// The arguments for an audio-only download.
pub open spec fn audio_args(format: Seq<char>, audio_codec: Seq<char>) -> Seq<Seq<char>> {
    seq!["-x"@, "--audio-format"@, extracted_audio_format(format, audio_codec)]
}

/// The arguments that re-encode the audio of a video download, when a codec
/// other than `best` is preferred.
pub open spec fn reencode_args(audio_codec: Seq<char>) -> Seq<Seq<char>> {
    if audio_codec == "best"@ {
        Seq::empty()
    } else {
        seq!["--audio-format"@, audio_codec]
    }
}

/// The arguments for a video download.
pub open spec fn video_args(
    format: Seq<char>,
    quality: Seq<char>,
    codec: Seq<char>,
    audio_codec: Seq<char>,
) -> Seq<Seq<char>> {
    seq!["-f"@, format_selector(quality, codec)] + reencode_args(audio_codec)
        + seq!["--merge-output-format"@, format]
}

/// The arguments that depend on the container.
pub open spec fn format_args(request: RequestView) -> Seq<Seq<char>> {
    if is_audio_format(request.format) {
        audio_args(request.format, request.audio_codec)
    } else {
        video_args(request.format, request.quality, request.codec, request.audio_codec)
    }
}

/// The complete argument list of a download: output, embedding, transcoder
/// location, section, container-dependent arguments, and the address last.
pub open spec fn download_args(request: RequestView, transcoder: Option<Seq<char>>) -> Seq<
    Seq<char>,
> {
    output_args(request.save_path) + embed_args(request.embed_metadata) + transcoder_args(
        transcoder,
    ) + trim_args(request.start_time, request.end_time) + format_args(request) + seq![request.url]
}

/// Whether `format` names a container that holds audio only.
pub fn audio_only(format: &String) -> (audio: bool)
    ensures
        audio == is_audio_format(format@),
{
    text_is(format, "mp3") || text_is(format, "wav") || text_is(format, "m4a")
}

/// The stream filter for the video codec preference `codec`.
pub fn video_codec_filter(codec: &String) -> (filter: &'static str)
    ensures
        filter@ == codec_filter(codec@),
{
    if text_is(codec, "h264") {
        "[vcodec^=avc1]"
    } else if text_is(codec, "vp9") {
        "[vcodec^=vp9]"
    } else if text_is(codec, "av1") {
        "[vcodec^=av01]"
    } else {
        proof {
            reveal_strlit("");
            assert(""@ =~= Seq::<char>::empty());
        }
        ""
    }
}

/// Builds the stream selection expression for a video download.
pub fn build_format_selector(quality: &String, codec: &String) -> (selector: String)
    ensures
        selector@ == format_selector(quality@, codec@),
{
    let mut selector = String::from_str("bestvideo[height<=");
    selector.append(quality.as_str());
    selector.append("]");
    selector.append(video_codec_filter(codec));
    selector.append("+bestaudio/best[height<=");
    selector.append(quality.as_str());
    selector.append("]/best");
    selector
}

/// Builds the section expression `*<start> - <end>`.
pub fn build_trim_range(start: &String, end: &String) -> (range: String)
    ensures
        range@ == trim_range(start@, end@),
{
    let mut range = String::from_str("*");
    range.append(start.as_str());
    range.append(" - ");
    range.append(end.as_str());
    range
}

/// Appends the arguments every download starts with.
fn push_output_args(args: &mut Vec<String>, save_path: &String)
    ensures
        texts(final(args)@) == texts(old(args)@) + output_args(save_path@),
{
    let mut template = save_path.clone();
    template.append("/%(title)s.%(ext)s");
    push_text(args, "-o");
    push_text(args, template.as_str());
    push_text(args, "--newline");
    assert(texts(args@) =~= texts(old(args)@) + output_args(save_path@));
}

/// Appends the embedding arguments, if embedding is asked for.
fn push_embed_args(args: &mut Vec<String>, embed_metadata: bool)
    ensures
        texts(final(args)@) == texts(old(args)@) + embed_args(embed_metadata),
{
    if embed_metadata {
        push_text(args, "--embed-metadata");
        push_text(args, "--embed-thumbnail");
    }
    assert(texts(args@) =~= texts(old(args)@) + embed_args(embed_metadata));
}

/// Appends the transcoder's location, if it is known.
fn push_transcoder_args(args: &mut Vec<String>, transcoder: &Option<String>)
    ensures
        texts(final(args)@) == texts(old(args)@) + transcoder_args(option_text(*transcoder)),
{
    if let Some(path) = transcoder {
        push_text(args, "--ffmpeg-location");
        push_text(args, path.as_str());
    }
    assert(texts(args@) =~= texts(old(args)@) + transcoder_args(option_text(*transcoder)));
}

/// Appends the section arguments, if both markers are given and non-empty.
fn push_trim_args(args: &mut Vec<String>, start: &Option<String>, end: &Option<String>)
    ensures
        texts(final(args)@) == texts(old(args)@) + trim_args(
            option_text(*start),
            option_text(*end),
        ),
{
    if let Some(s) = start {
        if let Some(e) = end {
            if !s.as_str().is_empty() && !e.as_str().is_empty() {
                let range = build_trim_range(s, e);
                push_text(args, "--download-sections");
                push_text(args, range.as_str());
            }
        }
    }
    assert(texts(args@) =~= texts(old(args)@) + trim_args(
        option_text(*start),
        option_text(*end),
    ));
}

/// Appends the arguments of an audio-only download.
fn push_audio_args(args: &mut Vec<String>, format: &String, audio_codec: &String)
    ensures
        texts(final(args)@) == texts(old(args)@) + audio_args(format@, audio_codec@),
{
    push_text(args, "-x");
    push_text(args, "--audio-format");
    if text_is(audio_codec, "best") {
        push_text(args, format.as_str());
    } else {
        push_text(args, audio_codec.as_str());
    }
    assert(texts(args@) =~= texts(old(args)@) + audio_args(format@, audio_codec@));
}

/// Appends the arguments of a video download.
fn push_video_args(
    args: &mut Vec<String>,
    format: &String,
    quality: &String,
    codec: &String,
    audio_codec: &String,
)
    ensures
        texts(final(args)@) == texts(old(args)@) + video_args(
            format@,
            quality@,
            codec@,
            audio_codec@,
        ),
{
    let selector = build_format_selector(quality, codec);
    push_text(args, "-f");
    push_text(args, selector.as_str());
    if !text_is(audio_codec, "best") {
        push_text(args, "--audio-format");
        push_text(args, audio_codec.as_str());
    }
    push_text(args, "--merge-output-format");
    push_text(args, format.as_str());
    assert(texts(args@) =~= texts(old(args)@) + video_args(
        format@,
        quality@,
        codec@,
        audio_codec@,
    ));
}

/// Builds the downloader's argument list for `request`. `transcoder` is the
/// location of the bundled transcoder, if one was found.
pub fn build_download_args(request: &DownloadRequest, transcoder: &Option<String>) -> (args: Vec<
    String,
>)
    ensures
        texts(args@) == download_args(request@, option_text(*transcoder)),
{
    let mut args: Vec<String> = Vec::new();
    assert(texts(args@) =~= Seq::<Seq<char>>::empty());
    push_output_args(&mut args, &request.save_path);
    assert(texts(args@) =~= output_args(request@.save_path));
    push_embed_args(&mut args, request.embed_metadata);
    push_transcoder_args(&mut args, transcoder);
    push_trim_args(&mut args, &request.start_time, &request.end_time);
    if audio_only(&request.format) {
        push_audio_args(&mut args, &request.format, &request.audio_codec);
    } else {
        push_video_args(
            &mut args,
            &request.format,
            &request.quality,
            &request.codec,
            &request.audio_codec,
        );
    }
    push_text(&mut args, request.url.as_str());
    args
}

/// The flag that restricts a download to a section.
pub open spec fn trim_flag() -> Seq<char> {
    "--download-sections"@
}

/// Whether one of the values that the caller supplies as an argument of its
/// own (the address, the transcoder's location, the container, the audio
/// codec) is `token`.
pub open spec fn caller_supplies(
    request: RequestView,
    transcoder: Option<Seq<char>>,
    token: Seq<char>,
) -> bool {
    ||| request.url == token
    ||| transcoder == Some(token)
    ||| request.format == token
    ||| request.audio_codec == token
}

/// The place in the argument list at which the section arguments stand,
/// when there are any.
pub open spec fn trim_position(request: RequestView, transcoder: Option<Seq<char>>) -> nat {
    output_args(request.save_path).len() + embed_args(request.embed_metadata).len()
        + transcoder_args(transcoder).len()
}

/// A concatenation holds `x` exactly when one of its parts does.
proof fn lemma_contains_add(a: Seq<Seq<char>>, b: Seq<Seq<char>>, x: Seq<char>)
    ensures
        (a + b).contains(x) <==> a.contains(x) || b.contains(x),
{
    if a.contains(x) {
        let i = choose|i: int| 0 <= i < a.len() && a[i] == x;
        assert((a + b)[i] == x);
    }
    if b.contains(x) {
        let i = choose|i: int| 0 <= i < b.len() && b[i] == x;
        assert((a + b)[a.len() + i] == x);
    }
    if (a + b).contains(x) {
        let i = choose|i: int| 0 <= i < (a + b).len() && (a + b)[i] == x;
        if i < a.len() {
            assert(a[i] == x);
        } else {
            assert(b[i - a.len()] == x);
        }
    }
}

/// None of the arguments that the builder writes by itself, other than the
/// section flag, is the section flag.
proof fn lemma_fixed_parts_lack_trim_flag(request: RequestView, transcoder: Option<Seq<char>>)
    ensures
        !output_args(request.save_path).contains(trim_flag()),
        !embed_args(request.embed_metadata).contains(trim_flag()),
        transcoder_args(transcoder).contains(trim_flag()) <==> transcoder == Some(trim_flag()),
        trim_args(request.start_time, request.end_time).contains(trim_flag()) <==> wants_trim(
            request.start_time,
            request.end_time,
        ),
        format_args(request).contains(trim_flag()) <==> (request.format == trim_flag()
            || request.audio_codec == trim_flag()),
{
    let flag = trim_flag();
    reveal_strlit("--download-sections");
    reveal_strlit("-o");
    reveal_strlit("--newline");
    reveal_strlit("/%(title)s.%(ext)s");
    reveal_strlit("--embed-metadata");
    reveal_strlit("--embed-thumbnail");
    reveal_strlit("--ffmpeg-location");
    reveal_strlit("*");
    reveal_strlit("-x");
    reveal_strlit("--audio-format");
    reveal_strlit("-f");
    reveal_strlit("--merge-output-format");
    reveal_strlit("bestvideo[height<=");
    reveal_strlit("mp3");
    reveal_strlit("wav");
    reveal_strlit("m4a");
    reveal_strlit("best");
    assert(flag.len() == 19);
    assert(flag[0] == '-');

    let template = output_template(request.save_path);
    assert(template != flag) by {
        if template.len() == 19 {
            assert(request.save_path.len() == 1);
            assert(template[1] == '/');
            assert(flag[1] == '-');
        }
    }
    let out = output_args(request.save_path);
    assert(!out.contains(flag)) by {
        assert(out.len() == 3);
        assert(out[0].len() == 2);
        assert(out[2].len() == 9);
        assert(out[1] == template);
    }

    let emb = embed_args(request.embed_metadata);
    assert(!emb.contains(flag)) by {
        if request.embed_metadata {
            assert(emb.len() == 2);
            assert(emb[0].len() == 16);
            assert(emb[1].len() == 17);
        }
    }

    let loc = transcoder_args(transcoder);
    assert(loc.contains(flag) <==> transcoder == Some(flag)) by {
        if let Some(path) = transcoder {
            assert(loc.len() == 2);
            assert(loc[0].len() == 17);
            assert(loc[1] == path);
        }
    }

    let trim = trim_args(request.start_time, request.end_time);
    assert(trim.contains(flag) <==> wants_trim(request.start_time, request.end_time)) by {
        if wants_trim(request.start_time, request.end_time) {
            assert(trim[0] == flag);
        }
    }

    let fmt = format_args(request);
    assert(fmt.contains(flag) <==> (request.format == flag || request.audio_codec == flag)) by {
        if is_audio_format(request.format) {
            assert(request.format.len() == 3);
            assert(fmt.len() == 3);
            assert(fmt[0].len() == 2);
            assert(fmt[1].len() == 14);
            assert(fmt[2] == extracted_audio_format(request.format, request.audio_codec));
            assert("best"@.len() == 4);
        } else {
            let selector = format_selector(request.quality, request.codec);
            assert(selector[0] == 'b');
            let first = seq!["-f"@, selector];
            let second = reencode_args(request.audio_codec);
            let third = seq!["--merge-output-format"@, request.format];
            lemma_contains_add(first + second, third, flag);
            lemma_contains_add(first, second, flag);
            assert(!first.contains(flag)) by {
                assert(first[0].len() == 2);
            }
            assert(second.contains(flag) <==> request.audio_codec == flag) by {
                assert("best"@.len() == 4);
                if request.audio_codec != "best"@ {
                    assert(second.len() == 2);
                    assert(second[0].len() == 14);
                    assert(second[1] == request.audio_codec);
                }
            }
            assert(third.contains(flag) <==> request.format == flag) by {
                assert(third[0].len() == 21);
                assert(third[1] == request.format);
            }
        }
    }
}

/// The section flag is among the arguments exactly when a section is asked
/// for, that is when both markers are present and non-empty, or when one of
/// the caller's own values is the text of the flag.
pub proof fn lemma_trim_flag_appears(request: RequestView, transcoder: Option<Seq<char>>)
    ensures
        download_args(request, transcoder).contains(trim_flag()) <==> (wants_trim(
            request.start_time,
            request.end_time,
        ) || caller_supplies(request, transcoder, trim_flag())),
{
    let flag = trim_flag();
    let a = output_args(request.save_path);
    let b = embed_args(request.embed_metadata);
    let c = transcoder_args(transcoder);
    let d = trim_args(request.start_time, request.end_time);
    let e = format_args(request);
    let f = seq![request.url];
    lemma_fixed_parts_lack_trim_flag(request, transcoder);
    lemma_contains_add(a, b, flag);
    lemma_contains_add(a + b, c, flag);
    lemma_contains_add(a + b + c, d, flag);
    lemma_contains_add(a + b + c + d, e, flag);
    lemma_contains_add(a + b + c + d + e, f, flag);
    assert(f.contains(flag) <==> request.url == flag) by {
        assert(f[0] == request.url);
    }
}

/// The section arguments stand right after the output, embedding and
/// transcoder arguments: the argument at that place is the section flag
/// exactly when both markers are present and non-empty, and the section
/// expression then follows it.
pub proof fn lemma_trim_flag_in_place(request: RequestView, transcoder: Option<Seq<char>>)
    ensures
        trim_position(request, transcoder) < download_args(request, transcoder).len(),
        download_args(request, transcoder)[trim_position(request, transcoder) as int] == trim_flag()
            <==> wants_trim(request.start_time, request.end_time),
        wants_trim(request.start_time, request.end_time) ==> download_args(
            request,
            transcoder,
        )[trim_position(request, transcoder) as int + 1] == trim_range(
            request.start_time->0,
            request.end_time->0,
        ),
{
    reveal_strlit("--download-sections");
    reveal_strlit("-x");
    reveal_strlit("-f");
    let at = trim_position(request, transcoder) as int;
    let args = download_args(request, transcoder);
    if wants_trim(request.start_time, request.end_time) {
        assert(args[at] == trim_flag());
        assert(args[at + 1] == trim_range(request.start_time->0, request.end_time->0));
    } else {
        assert(trim_args(request.start_time, request.end_time).len() == 0);
        assert(args[at] == format_args(request)[0]);
        assert(format_args(request)[0].len() == 2);
        assert(trim_flag().len() == 19);
    }
}

/// The argument list is a function of the request's content and of the
/// transcoder's location, and the request's identifier has no part in it.
pub proof fn lemma_args_determined(
    first: RequestView,
    second: RequestView,
    transcoder: Option<Seq<char>>,
)
    requires
        first == (RequestView { id: first.id, ..second }),
    ensures
        download_args(first, transcoder) == download_args(second, transcoder),
{
}

} // verus!
