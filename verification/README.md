# coinex

A command-line converter between cryptocurrencies and fiat or quote
currencies, priced by the CoinGecko API.

- `src/` is the verified library. It decides everything that needs no
  network access: which coin a text denotes (aliases, search results, the
  local coin list), which quote currencies are accepted, which prices a
  conversion asks for and how they combine, the endpoint addresses, when the
  cached coin list may be used, and when a failed request is retried.
- `app/main.rs` is the program: argument parsing, HTTP requests, the cache
  file, JSON decoding, and the floating-point arithmetic on prices.
- `tests/` exercises the library on concrete values.
