use vstd::prelude::*;
use crate::policy::{spec_disposition, AssetMetadata, AssetRecord, Disposition};
use crate::resolve::{spec_resolve, ResizeRequest, TargetDimensions};
use crate::transcode::{fit_of, spec_fit, spec_transcoded, transcode, OutputCodec};

verus! {

/// The body to serve and, when a transcode replaced the stored bytes, the
/// codec's content type; `None` means the stored type still applies.
pub struct ServeOutput {
    pub bytes: Vec<u8>,
    pub content_type: Option<String>,
}

/// What the transform step substitutes for the stored bytes, as a function
/// of its inputs: the transcode of the resolved target under the request's
/// fit and the configured codec — or nothing, when no resize was requested,
/// the asset is not an image, no target resolves, the bytes do not decode,
/// or the codec refuses the resized raster.
pub open spec fn spec_transform(
    contents: Seq<u8>,
    metadata: AssetMetadata,
    resize: Option<ResizeRequest>,
    codec: OutputCodec,
) -> Option<Seq<u8>> {
    match (metadata, resize) {
        (AssetMetadata::Image { width, height }, Some(rq)) => match spec_resolve(
            &rq,
            width as int,
            height as int,
        ) {
            Some(pair) => spec_transcoded(
                contents,
                TargetDimensions { width: pair.0 as u32, height: pair.1 as u32 },
                spec_fit(rq.fit),
                codec,
            ),
            None => None,
        },
        _ => None,
    }
}

/// The transform step of the pipeline, after retrieval: when a resize was
/// requested and the asset is an image, resolve the target and transcode;
/// in every other case, and on any transcode failure, serve the stored
/// bytes unchanged under their stored type. A resize failure never becomes
/// a request error.
pub fn serve_bytes(
    contents: Vec<u8>,
    metadata: &AssetMetadata,
    resize: &Option<ResizeRequest>,
    codec: &OutputCodec,
) -> (r: ServeOutput)
    requires
        metadata.wf(),
        codec.wf(),
        (*resize) matches Some(rq) ==> rq.wf(),
    ensures
        match spec_transform(contents@, *metadata, *resize, *codec) {
            Some(b) => {
                &&& r.bytes@ == b
                &&& r.content_type matches Some(ct) && ct@ == codec.spec_mime()
            },
            None => r.bytes@ == contents@ && r.content_type is None,
        },
{
    if let Some(rq) = resize {
        if let AssetMetadata::Image { width, height } = *metadata {
            match crate::resolve::resolve(rq, width, height) {
                Some(target) => {
                    match transcode(&contents, target, fit_of(&rq.fit), codec) {
                        Ok(out) => {
                            return ServeOutput {
                                bytes: out.bytes,
                                content_type: Some(out.content_type),
                            };
                        },
                        Err(_) => {
                            return ServeOutput { bytes: contents, content_type: None };
                        },
                    }
                },
                None => {
                    return ServeOutput { bytes: contents, content_type: None };
                },
            }
        }
    }
    ServeOutput { bytes: contents, content_type: None }
}

/// One assembled response: body, final content type, disposition, and the
/// process-wide cache policy. Status is implied: a plan is only built for an
/// admitted, retrieved asset.
pub struct ResponsePlan {
    pub bytes: Vec<u8>,
    pub content_type: String,
    pub disposition: Disposition,
    pub cache_control: String,
}

/// Header composition: the transcoded type wins over the stored one, and the
/// disposition follows the final type alone.
pub fn assemble(output: ServeOutput, stored_type: String, cache_control: String) -> (r:
    ResponsePlan)
    ensures
        r.content_type@ == (match output.content_type {
            Some(ct) => ct@,
            None => stored_type@,
        }),
        r.disposition == spec_disposition(r.content_type@),
        r.bytes@ == output.bytes@,
        r.cache_control@ == cache_control@,
{
    let content_type = match output.content_type {
        Some(ct) => ct,
        None => stored_type,
    };
    let disposition = crate::policy::disposition_of(content_type.as_str());
    ResponsePlan { bytes: output.bytes, content_type, disposition, cache_control }
}

/// The whole post-admission pipeline for one retrieved asset: transform as
/// requested, then compose the response. The stored bytes and type are
/// served exactly when no transcode applies or the transcode fails; a
/// successful transcode substitutes exactly its named output and the
/// configured codec's type.
pub fn plan_response(
    record: AssetRecord,
    resize: &Option<ResizeRequest>,
    contents: Vec<u8>,
    codec: &OutputCodec,
    cache_control: String,
) -> (r: ResponsePlan)
    requires
        record.wf(),
        codec.wf(),
        (*resize) matches Some(rq) ==> rq.wf(),
    ensures
        r.disposition == spec_disposition(r.content_type@),
        r.cache_control@ == cache_control@,
        match spec_transform(contents@, record.metadata, *resize, *codec) {
            Some(b) => r.bytes@ == b && r.content_type@ == codec.spec_mime(),
            None => r.bytes@ == contents@ && r.content_type@ == record.content_type@,
        },
{
    let output = serve_bytes(contents, &record.metadata, resize, codec);
    assemble(output, record.content_type, cache_control)
}

} // verus!
