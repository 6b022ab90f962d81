# blog_demos

Verified logic of three small browser demos.

- `src/unred.rs`: decodes a PNG picture to 8-bit RGBA (through the `image`
  crate) and clears its red channel.
- `src/metropolis.rs`: the stage schedule of an animated
  Metropolis-Hastings walker and the histogram of accepted points.
- `src/fit_tally.rs`: the success tally of a repeated straight-line fit,
  one count per random seed.

`app/` holds the browser side: canvas applets, sliders, fetches and the
floating-point statistics, which call into the library.
