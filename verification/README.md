# pyrth

Evaluation of thermal transients: from a measured heating or cooling curve to
the thermal impedance, its time constant spectrum, the Foster RC network and
the Cauer structure function.

- `src/` is the verified library. It holds the labelled modes of an
  evaluation, the command line of the tool, the row and field layout of
  T3Ster and two-column measurement files, and the integer decisions of the
  pipeline: which settings and inputs an evaluation refuses, which stages
  run, which samples are kept, how local-fit windows and Cauer blocks are
  placed, which bootstrap repetitions are kept, what a comparison of two
  results compares, which series are exported under which names, the keys
  a result offers, and the registry that keeps results under unique labels. Every function carries a
  contract that Verus proves; the laws of the library (label round trips,
  tiling of blocks, escaping of SVG text, distinct result labels and keys) are proof functions.
- `app/` is the command-line tool around it: reading files, the numerical
  stages on real numbers (derivative fits, Bayesian deconvolution, Foster and
  Lanczos Cauer networks, prediction, optimization, bootstrap), and writing
  CSV files and SVG figures.
- `tests/` runs the library on concrete inputs.
