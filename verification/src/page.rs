//! The static front page: a fixed HTML document, compiled in, that
//! embeds the video-js player and the two forms (upload, fetch by
//! name).  No templating; the handler serves the constant verbatim.

use vstd::prelude::*;

verus! {

/// The compiled-in player page.
pub const FRONTEND_HTML: &'static str = r#"<head>
            <link href="https://vjs.zencdn.net/8.16.1/video-js.css" rel="stylesheet" />
        </head>

        <body>
            <video
                id="my-video"
                class="video-js"
                controls
                preload="auto"
                width="640"
                height="264"
                poster="MY_VIDEO_POSTER.jpg"
                data-setup="{}"
            >
                <source
                    src="http://localhost:3000/video/stutter.mp4"
                    type="video/mp4"
                />

                <p class="vjs-no-js">
                    To view this video please enable JavaScript, and consider upgrading
                    to a web browser that
                    <a href="https://videojs.com/html5-video-support/" target="_blank"
                        >supports HTML5 video</a
                    >
                </p>
            </video>

            <div class="upload-form">
                <h2>Upload Video</h2>
                <form action="/upload" method="post" enctype="multipart/form-data">
                    <label for="file">Select a video file:</label>
                    <input type="file" id="file" name="file" accept="video/*"><br>
                    <input type="submit" value="Upload">
                </form>
            </div>

            <div class="section">
                <h2>Get Video by Name</h2>
                <form action="/video" method="get">
                    <div class="form-row">
                        <label for="video-name">Video name:</label>
                        <input type="text" id="video-name" name="name" required>
                    </div>
                    <input type="submit" value="Get Video" class="btn-blue">
                </form>
            </div>


            <script src="https://vjs.zencdn.net/8.16.1/video.min.js"></script>
        </body>"#;

/// The front page as served: status, content type, and the document.
pub struct PageResponse {
    pub status: u16,
    pub content_type: String,
    pub body: String,
}

/// Decides `GET /`: always the fixed page, as `text/html`.
pub fn frontend_page() -> (r: PageResponse)
    ensures
        r.status == 200,
        r.content_type@ == "text/html"@,
        r.body@ == FRONTEND_HTML@,
{
    PageResponse { status: 200, content_type: "text/html".to_owned(), body: FRONTEND_HTML.to_owned() }
}

} // verus!
