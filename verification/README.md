# oapps

The logic of LayerZero OApps on Stellar (the OApp core, type-3 options, the Omnichain
Fungible Token core and the Counter example), written in Verus with its behaviour stated in
contracts and proved.

- `src/` is the verified library: byte codecs of the Counter and OFT messages, type-3 option
  handling, decimal conversion and dust removal, the OFT send and receive decisions, and the
  Counter as a state machine. Laws that span several functions are public proof functions
  whose names begin with `law_` or `lemma_`.
- `tests/` runs the library on concrete values.
- `app/` holds the Soroban contracts around the library: storage, authorization, token
  transfers, endpoint calls and events. It hands the library plain values and performs what
  the library decides.
